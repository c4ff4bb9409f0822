//! Render-side position synchronisation.
//!
//! The synchroniser keeps a `previous` and a `current` position, moved once
//! per fixed simulation tick, and renders every frame at a point between the
//! two given by how far the frame lies into the running tick. Positions,
//! ticks and oversteps are microseconds; playback speed is in thousandths.

use vstd::prelude::*;
use crate::engine::EngineCommand;

verus! {

/// Playback speed of one, in thousandths.
pub const NORMAL_SPEED: u32 = 1000;

/// How far a tick of `tick` microseconds moves the position at `speed`
/// thousandths of normal speed.
pub open spec fn scaled(tick: u64, speed: u32) -> int {
    (tick as int) * (speed as int) / 1000
}

/// `position` moved on by `amount`, held at `u64::MAX`.
pub open spec fn advanced(position: u64, amount: int) -> u64 {
    if position + amount > u64::MAX {
        u64::MAX
    } else {
        (position + amount) as u64
    }
}

/// The distance covered in one tick of `tick` microseconds at `speed`
/// thousandths of normal speed, held at `u64::MAX`.
pub fn scaled_tick(tick: u64, speed: u32) -> (r: u64)
    ensures
        r as int == (if scaled(tick, speed) > u64::MAX { u64::MAX as int } else { scaled(tick, speed) }),
{
    assert((tick as int) * (speed as int) <= u128::MAX) by (nonlinear_arith)
        requires
            tick <= u64::MAX,
            speed <= u32::MAX,
    ;
    let product: u128 = (tick as u128) * (speed as u128);
    let amount: u128 = product / 1000;
    if amount > u64::MAX as u128 {
        u64::MAX
    } else {
        amount as u64
    }
}

/// The abstract state of a [`PositionSync`].
pub struct SyncModel {
    pub previous: u64,
    pub current: u64,
}

/// The state after one fixed tick.
pub open spec fn tick_model(s: SyncModel, playing: bool, tick: u64, speed: u32) -> SyncModel {
    SyncModel {
        previous: s.current,
        current: if playing { advanced(s.current, scaled(tick, speed)) } else { s.current },
    }
}

/// The position shown by a frame that lies `overstep` microseconds into a
/// tick of `tick` microseconds: the linear interpolation from `previous`
/// to `current`. A frame at or past the tick's end shows `current`.
pub open spec fn render_model(s: SyncModel, overstep: u64, tick: u64) -> u64 {
    if tick == 0 || overstep >= tick {
        s.current
    } else {
        (s.previous + (s.current - s.previous) * (overstep as int) / (tick as int)) as u64
    }
}

/// Interpolated visual position, driven by fixed ticks and sampled by frames.
pub struct PositionSync {
    previous: u64,
    current: u64,
}

impl View for PositionSync {
    type V = SyncModel;

    closed spec fn view(&self) -> SyncModel {
        SyncModel { previous: self.previous, current: self.current }
    }
}

impl PositionSync {
    /// The position never runs backwards from `previous` to `current`.
    #[verifier::type_invariant]
    closed spec fn inv(&self) -> bool {
        self.previous <= self.current
    }

    /// A synchroniser resting at `position`.
    pub fn new(position: u64) -> (r: PositionSync)
        ensures
            r@ == (SyncModel { previous: position, current: position }),
    {
        PositionSync { previous: position, current: position }
    }

    /// Position at the start of the running tick.
    pub fn previous(&self) -> (r: u64)
        ensures
            r == self@.previous,
    {
        self.previous
    }

    /// Position at the end of the running tick.
    pub fn current(&self) -> (r: u64)
        ensures
            r == self@.current,
    {
        self.current
    }

    /// One fixed tick of `tick` microseconds: the current position becomes
    /// the previous one, and moves on by the tick at `speed` while playing.
    pub fn fixed_tick(&mut self, playing: bool, tick: u64, speed: u32)
        ensures
            final(self)@ == tick_model(old(self)@, playing, tick, speed),
    {
        let cur = self.current;
        let next = if playing {
            cur.saturating_add(scaled_tick(tick, speed))
        } else {
            cur
        };
        *self = PositionSync { previous: cur, current: next };
    }

    /// Jumps to `position`: both ends move together, so no frame shows a
    /// slide towards the new position.
    pub fn seek(&mut self, position: u64)
        ensures
            final(self)@ == (SyncModel { previous: position, current: position }),
    {
        *self = PositionSync { previous: position, current: position };
    }

    /// Follows a command sent to the engine: where it moves the song
    /// position at once (a seek, or a rewind to the start), the shown
    /// position jumps there too; other commands leave it alone.
    pub fn follow(&mut self, command: EngineCommand)
        ensures
            final(self)@ == (match command {
                EngineCommand::Seek(t) => SyncModel { previous: t, current: t },
                EngineCommand::PlaySong | EngineCommand::LoadSong => SyncModel { previous: 0, current: 0 },
                _ => old(self)@,
            }),
    {
        match command {
            EngineCommand::Seek(t) => self.seek(t),
            EngineCommand::PlaySong | EngineCommand::LoadSong => self.seek(0),
            _ => {},
        }
    }

    /// The position for a frame that lies `overstep` microseconds into the
    /// running tick of `tick` microseconds.
    pub fn render(&self, overstep: u64, tick: u64) -> (r: u64)
        ensures
            r == render_model(self@, overstep, tick),
            self@.previous <= r <= self@.current,
    {
        proof {
            use_type_invariant(self);
        }
        if tick == 0 || overstep >= tick {
            return self.current;
        }
        let span: u64 = self.current - self.previous;
        proof {
            lemma_part_of_span(span as int, overstep as int, tick as int);
            assert((span as int) * (overstep as int) <= u128::MAX) by (nonlinear_arith)
                requires
                    span <= u64::MAX,
                    overstep <= u64::MAX,
            ;
        }
        let product: u128 = (span as u128) * (overstep as u128);
        let part: u128 = product / (tick as u128);
        self.previous + (part as u64)
    }
}

/// A share `overstep / tick` of a span, with `overstep` under `tick`, lies
/// between nothing and the whole span.
proof fn lemma_part_of_span(span: int, overstep: int, tick: int)
    requires
        0 <= span,
        0 <= overstep < tick,
    ensures
        0 <= span * overstep / tick <= span,
{
    assert(0 <= span * overstep) by (nonlinear_arith)
        requires
            0 <= span,
            0 <= overstep,
    ;
    assert(span * overstep <= span * tick) by (nonlinear_arith)
        requires
            0 <= span,
            overstep < tick,
    ;
    assert(span * tick == tick * span) by (nonlinear_arith);
    vstd::arithmetic::div_mod::lemma_div_is_ordered(span * overstep, tick * span, tick);
    vstd::arithmetic::div_mod::lemma_div_multiples_vanish(span, tick);
    vstd::arithmetic::div_mod::lemma_div_pos_is_pos(span * overstep, tick);
}

/// The state after `n` fixed ticks.
pub open spec fn ticks_model(s: SyncModel, playing: bool, tick: u64, speed: u32, n: nat) -> SyncModel
    decreases n,
{
    if n == 0 {
        s
    } else {
        tick_model(ticks_model(s, playing, tick, speed, (n - 1) as nat), playing, tick, speed)
    }
}

/// The position shown by a frame drawn `t` microseconds after `s` was taken
/// at a tick boundary, with ticks of `tick` microseconds running meanwhile.
/// It depends on the frame's time alone, not on how often frames are drawn.
pub open spec fn frame_at(s: SyncModel, playing: bool, tick: u64, speed: u32, t: nat) -> u64
    recommends
        tick > 0,
{
    render_model(ticks_model(s, playing, tick, speed, t / (tick as nat)), (t % (tick as nat)) as u64, tick)
}

proof fn lemma_ticks_ordered(s: SyncModel, playing: bool, tick: u64, speed: u32, a: nat, b: nat)
    requires
        s.previous <= s.current,
        a <= b,
    ensures
        ticks_model(s, playing, tick, speed, b).previous <= ticks_model(s, playing, tick, speed, b).current,
        ticks_model(s, playing, tick, speed, a).current <= ticks_model(s, playing, tick, speed, b).current,
    decreases b,
{
    if b > 0 {
        if a == b {
            lemma_ticks_ordered(s, playing, tick, speed, (b - 1) as nat, (b - 1) as nat);
        } else {
            lemma_ticks_ordered(s, playing, tick, speed, a, (b - 1) as nat);
        }
    }
}

proof fn lemma_render_bounds(s: SyncModel, o1: u64, o2: u64, tick: u64)
    requires
        s.previous <= s.current,
        o1 <= o2 < tick,
    ensures
        s.previous <= render_model(s, o1, tick) <= render_model(s, o2, tick) <= s.current,
{
    let span = s.current - s.previous;
    lemma_part_of_span(span, o1 as int, tick as int);
    lemma_part_of_span(span, o2 as int, tick as int);
    assert(span * (o1 as int) <= span * (o2 as int)) by (nonlinear_arith)
        requires
            0 <= span,
            o1 <= o2,
    ;
    vstd::arithmetic::div_mod::lemma_div_is_ordered(span * (o1 as int), span * (o2 as int), tick as int);
}

/// Frames never show the position going backwards, whatever the frame
/// rate: a later frame shows a position at least that of an earlier one.
pub proof fn lemma_frames_never_regress(
    s: SyncModel,
    playing: bool,
    tick: u64,
    speed: u32,
    earlier: nat,
    later: nat,
)
    requires
        s.previous <= s.current,
        tick > 0,
        earlier <= later,
    ensures
        frame_at(s, playing, tick, speed, earlier) <= frame_at(s, playing, tick, speed, later),
{
    let t = tick as nat;
    let k1 = earlier / t;
    let k2 = later / t;
    let o1 = earlier % t;
    let o2 = later % t;
    vstd::arithmetic::div_mod::lemma_div_is_ordered(earlier as int, later as int, t as int);
    vstd::arithmetic::div_mod::lemma_fundamental_div_mod(earlier as int, t as int);
    vstd::arithmetic::div_mod::lemma_fundamental_div_mod(later as int, t as int);
    vstd::arithmetic::div_mod::lemma_mod_bound(earlier as int, t as int);
    vstd::arithmetic::div_mod::lemma_mod_bound(later as int, t as int);
    let s1 = ticks_model(s, playing, tick, speed, k1);
    let s2 = ticks_model(s, playing, tick, speed, k2);
    lemma_ticks_ordered(s, playing, tick, speed, k1, k1);
    lemma_ticks_ordered(s, playing, tick, speed, k2, k2);
    if k1 == k2 {
        assert(o1 <= o2);
        lemma_render_bounds(s1, o1 as u64, o2 as u64, tick);
    } else {
        lemma_render_bounds(s1, o1 as u64, o1 as u64, tick);
        lemma_render_bounds(s2, o2 as u64, o2 as u64, tick);
        lemma_ticks_ordered(s, playing, tick, speed, k1, (k2 - 1) as nat);
    }
}

/// At each tick boundary every frame rate shows the same position: the
/// one the ticks have reached, which the previous tick ended at.
pub proof fn lemma_frames_meet_ticks(s: SyncModel, playing: bool, tick: u64, speed: u32, k: nat)
    requires
        tick > 0,
    ensures
        frame_at(s, playing, tick, speed, k * (tick as nat)) == ticks_model(s, playing, tick, speed, k).previous,
        k > 0 ==> frame_at(s, playing, tick, speed, k * (tick as nat)) == ticks_model(
            s,
            playing,
            tick,
            speed,
            (k - 1) as nat,
        ).current,
{
    let t = tick as nat;
    vstd::arithmetic::div_mod::lemma_div_multiples_vanish(k as int, t as int);
    vstd::arithmetic::div_mod::lemma_mod_multiples_basic(k as int, t as int);
    assert(k * t == t * k) by (nonlinear_arith);
    let sk = ticks_model(s, playing, tick, speed, k);
    assert(render_model(sk, 0, tick) == sk.previous);
}

} // verus!
