//! The playback engine's transport state machine.
//!
//! The engine owns the authoritative playback state and song position. It
//! does no I/O itself: each command yields at most one call that the caller
//! performs on the audio backend, and whether the processing loop goes on.
//! All times are microseconds; `now` is a reading of a monotonic clock.

use vstd::prelude::*;

verus! {

/// A transport instruction sent to the engine.
#[derive(Clone, Copy, Debug, PartialEq, Eq, Structural)]
pub enum EngineCommand {
    /// Drop the current source and return to `Idle` at the song's start.
    LoadSong,
    /// Rewind to the start of the song and play it.
    PlaySong,
    Pause,
    Resume,
    /// Move to the given position, in microseconds.
    Seek(u64),
    Quit,
}

/// The engine's authoritative playback state.
#[derive(Clone, Copy, Debug, PartialEq, Eq, Structural)]
pub enum PlaybackState {
    Idle,
    Playing,
    Paused,
}

/// An operation that the engine asks of the audio backend.
#[derive(Clone, Copy, Debug, PartialEq, Eq, Structural)]
pub enum BackendCall {
    /// Drop whatever source is queued.
    Clear,
    /// Append the loaded source and play it from its beginning.
    Play,
    Pause,
    Resume,
    /// Seek the backend to the given position, in microseconds.
    Seek(u64),
    Stop,
}

/// The abstract state of an [`Engine`].
pub struct EngineModel {
    pub state: PlaybackState,
    /// Song position at the clock reading `last_start`.
    pub anchor: u64,
    /// Clock reading at which the position was last anchored.
    pub last_start: u64,
    /// False once the engine has quit or its channel has gone.
    pub running: bool,
}

/// Time elapsed on the clock from `start` to `now`; a clock that reads
/// earlier than `start` counts as no time at all.
pub open spec fn elapsed(start: u64, now: u64) -> u64 {
    now.saturating_sub(start)
}

/// The song position of `m` at clock reading `now`: the anchor, plus the
/// time elapsed since it was taken while playing.
pub open spec fn position_at(m: EngineModel, now: u64) -> u64 {
    if m.state is Playing {
        m.anchor.saturating_add(elapsed(m.last_start, now))
    } else {
        m.anchor
    }
}

/// The engine before any command.
pub open spec fn initial_model() -> EngineModel {
    EngineModel { state: PlaybackState::Idle, anchor: 0, last_start: 0, running: true }
}

/// The state after `cmd` arrives at clock reading `now`.
pub open spec fn next_model(m: EngineModel, cmd: EngineCommand, now: u64) -> EngineModel {
    if !m.running {
        m
    } else {
        match cmd {
            EngineCommand::LoadSong => EngineModel {
                state: PlaybackState::Idle,
                anchor: 0,
                last_start: now,
                ..m
            },
            EngineCommand::PlaySong => EngineModel {
                state: PlaybackState::Playing,
                anchor: 0,
                last_start: now,
                ..m
            },
            EngineCommand::Pause => if m.state is Playing {
                EngineModel { state: PlaybackState::Paused, anchor: position_at(m, now), ..m }
            } else {
                m
            },
            EngineCommand::Resume => if m.state is Paused {
                EngineModel { state: PlaybackState::Playing, last_start: now, ..m }
            } else {
                m
            },
            EngineCommand::Seek(t) => EngineModel { anchor: t, last_start: now, ..m },
            EngineCommand::Quit => EngineModel { running: false, ..m },
        }
    }
}

/// The backend call that `cmd` asks for in state `m`, if any.
pub open spec fn call_for(m: EngineModel, cmd: EngineCommand) -> Option<BackendCall> {
    if !m.running {
        None
    } else {
        match cmd {
            EngineCommand::LoadSong => Some(BackendCall::Clear),
            EngineCommand::PlaySong => Some(BackendCall::Play),
            EngineCommand::Pause => if m.state is Playing {
                Some(BackendCall::Pause)
            } else {
                None
            },
            EngineCommand::Resume => if m.state is Paused {
                Some(BackendCall::Resume)
            } else {
                None
            },
            EngineCommand::Seek(t) => Some(BackendCall::Seek(t)),
            EngineCommand::Quit => Some(BackendCall::Stop),
        }
    }
}

/// What handling one command produced.
#[derive(Clone, Copy, Debug, PartialEq, Eq)]
pub struct Reaction {
    /// The call to perform on the backend, if any.
    pub call: Option<BackendCall>,
    /// Whether the processing loop goes on.
    pub keep_running: bool,
}

/// The playback engine's state machine.
pub struct Engine {
    state: PlaybackState,
    anchor: u64,
    last_start: u64,
    running: bool,
}

impl View for Engine {
    type V = EngineModel;

    closed spec fn view(&self) -> EngineModel {
        EngineModel {
            state: self.state,
            anchor: self.anchor,
            last_start: self.last_start,
            running: self.running,
        }
    }
}

impl Engine {
    /// An idle engine at the start of the song.
    pub fn new() -> (r: Engine)
        ensures
            r@ == initial_model(),
    {
        Engine { state: PlaybackState::Idle, anchor: 0, last_start: 0, running: true }
    }

    /// The current playback state.
    pub fn state(&self) -> (r: PlaybackState)
        ensures
            r == self@.state,
    {
        self.state
    }

    /// Whether the engine still takes commands.
    pub fn is_running(&self) -> (r: bool)
        ensures
            r == self@.running,
    {
        self.running
    }

    /// The song position at clock reading `now`.
    pub fn position(&self, now: u64) -> (r: u64)
        ensures
            r == position_at(self@, now),
    {
        if self.state == PlaybackState::Playing {
            self.anchor.saturating_add(now.saturating_sub(self.last_start))
        } else {
            self.anchor
        }
    }

    /// Applies one command arriving at clock reading `now`: updates the
    /// state and reports the backend call to perform and whether the
    /// processing loop goes on. Once the engine has quit every command is
    /// ignored.
    pub fn handle_command(&mut self, cmd: EngineCommand, now: u64) -> (r: Reaction)
        ensures
            final(self)@ == next_model(old(self)@, cmd, now),
            r.call == call_for(old(self)@, cmd),
            r.keep_running == final(self)@.running,
    {
        if !self.running {
            return Reaction { call: None, keep_running: false };
        }
        let call = match cmd {
            EngineCommand::LoadSong => {
                self.state = PlaybackState::Idle;
                self.anchor = 0;
                self.last_start = now;
                Some(BackendCall::Clear)
            },
            EngineCommand::PlaySong => {
                self.state = PlaybackState::Playing;
                self.anchor = 0;
                self.last_start = now;
                Some(BackendCall::Play)
            },
            EngineCommand::Pause => {
                if self.state == PlaybackState::Playing {
                    self.anchor = self.position(now);
                    self.state = PlaybackState::Paused;
                    Some(BackendCall::Pause)
                } else {
                    None
                }
            },
            EngineCommand::Resume => {
                if self.state == PlaybackState::Paused {
                    self.state = PlaybackState::Playing;
                    self.last_start = now;
                    Some(BackendCall::Resume)
                } else {
                    None
                }
            },
            EngineCommand::Seek(t) => {
                self.anchor = t;
                self.last_start = now;
                Some(BackendCall::Seek(t))
            },
            EngineCommand::Quit => {
                self.running = false;
                Some(BackendCall::Stop)
            },
        };
        Reaction { call, keep_running: self.running }
    }

    /// The command channel has gone: the engine stops, asking the backend
    /// to stop unless it has already quit.
    pub fn disconnect(&mut self) -> (r: Option<BackendCall>)
        ensures
            final(self)@ == (EngineModel { running: false, ..old(self)@ }),
            r == (if old(self)@.running { Some(BackendCall::Stop) } else { None::<BackendCall> }),
    {
        if self.running {
            self.running = false;
            Some(BackendCall::Stop)
        } else {
            None
        }
    }
}

/// The state after handling each `(command, clock reading)` of `cmds` in order.
pub open spec fn run_model(m: EngineModel, cmds: Seq<(EngineCommand, u64)>) -> EngineModel
    decreases cmds.len(),
{
    if cmds.len() == 0 {
        m
    } else {
        run_model(next_model(m, cmds[0].0, cmds[0].1), cmds.drop_first())
    }
}

/// The backend calls made while handling `cmds` in order.
pub open spec fn run_calls(m: EngineModel, cmds: Seq<(EngineCommand, u64)>) -> Seq<BackendCall>
    decreases cmds.len(),
{
    if cmds.len() == 0 {
        Seq::empty()
    } else {
        let rest = run_calls(next_model(m, cmds[0].0, cmds[0].1), cmds.drop_first());
        match call_for(m, cmds[0].0) {
            Some(c) => seq![c] + rest,
            None => rest,
        }
    }
}

/// The number of `Stop` calls in `calls`.
pub open spec fn stop_count(calls: Seq<BackendCall>) -> nat
    decreases calls.len(),
{
    if calls.len() == 0 {
        0
    } else {
        (if calls[0] is Stop { 1nat } else { 0nat }) + stop_count(calls.drop_first())
    }
}

/// Whether `cmds` holds a `Quit`.
pub open spec fn has_quit(cmds: Seq<(EngineCommand, u64)>) -> bool {
    exists|i: int| 0 <= i < cmds.len() && (#[trigger] cmds[i]).0 is Quit
}

/// Only `PlaySong` and `Resume` start playback.
pub proof fn lemma_only_start_or_resume_plays(m: EngineModel, cmd: EngineCommand, now: u64)
    ensures
        !(m.state is Playing) && next_model(m, cmd, now).state is Playing ==> (cmd is PlaySong
            || cmd is Resume),
{
}

/// From `Idle`, any sequence of `Pause` and `Resume` leaves the engine idle:
/// there is nothing to resume before a song has been started.
pub proof fn lemma_pause_resume_keep_idle(m: EngineModel, cmds: Seq<(EngineCommand, u64)>)
    requires
        m.state is Idle,
        forall|i: int| 0 <= i < cmds.len() ==> (#[trigger] cmds[i]).0 is Pause || cmds[i].0 is Resume,
    ensures
        run_model(m, cmds).state is Idle,
        run_model(m, cmds).anchor == m.anchor,
    decreases cmds.len(),
{
    if cmds.len() > 0 {
        let rest = cmds.drop_first();
        assert forall|i: int| 0 <= i < rest.len() implies (#[trigger] rest[i]).0 is Pause
            || rest[i].0 is Resume by {
            assert(rest[i] == cmds[i + 1]);
        }
        assert(cmds[0].0 is Pause || cmds[0].0 is Resume);
        lemma_pause_resume_keep_idle(next_model(m, cmds[0].0, cmds[0].1), rest);
    }
}

/// Time that passes between a `Pause` and the following `Resume` is not
/// counted: afterwards the position is the one frozen at the pause plus the
/// time elapsed since the resume.
pub proof fn lemma_pause_gap_not_counted(m: EngineModel, paused_at: u64, resumed_at: u64, now: u64)
    requires
        m.running,
        m.state is Playing,
        resumed_at <= now,
    ensures
        ({
            let p = next_model(m, EngineCommand::Pause, paused_at);
            let r = next_model(p, EngineCommand::Resume, resumed_at);
            &&& r.state is Playing
            &&& position_at(r, now) == position_at(m, paused_at).saturating_add(
                (now - resumed_at) as u64,
            )
        }),
{
}

/// A seek takes effect at once, whatever the playback state: the position
/// read at the same clock reading is the target.
pub proof fn lemma_seek_reads_back(m: EngineModel, t: u64, now: u64)
    requires
        m.running,
    ensures
        position_at(next_model(m, EngineCommand::Seek(t), now), now) == t,
        next_model(m, EngineCommand::Seek(t), now).state == m.state,
{
}

/// `PlaySong` rewinds to the start and plays.
pub proof fn lemma_play_song_rewinds(m: EngineModel, now: u64)
    requires
        m.running,
    ensures
        next_model(m, EngineCommand::PlaySong, now).state is Playing,
        position_at(next_model(m, EngineCommand::PlaySong, now), now) == 0,
{
}

/// A `Pause` and a `Resume` at the same clock reading leave the position
/// where it was.
pub proof fn lemma_pause_resume_round_trip(m: EngineModel, now: u64)
    requires
        m.running,
    ensures
        position_at(
            next_model(next_model(m, EngineCommand::Pause, now), EngineCommand::Resume, now),
            now,
        ) == position_at(m, now),
{
}

/// While playing, the position does not go backwards as the clock advances.
pub proof fn lemma_position_monotonic(m: EngineModel, earlier: u64, later: u64)
    requires
        earlier <= later,
    ensures
        position_at(m, earlier) <= position_at(m, later),
{
}

/// `Quit` ends the processing loop at once, after asking the backend to stop.
pub proof fn lemma_quit_ends_loop(m: EngineModel, now: u64)
    requires
        m.running,
    ensures
        !next_model(m, EngineCommand::Quit, now).running,
        call_for(m, EngineCommand::Quit) == Some(BackendCall::Stop),
{
}

/// Over any sequence of commands the backend is stopped exactly once if a
/// `Quit` arrives while the engine runs, and never otherwise; nothing at all
/// is asked of it after the engine has quit.
pub proof fn lemma_stopped_once(m: EngineModel, cmds: Seq<(EngineCommand, u64)>)
    ensures
        stop_count(run_calls(m, cmds)) == (if m.running && has_quit(cmds) { 1nat } else { 0nat }),
        !m.running ==> run_calls(m, cmds) == Seq::<BackendCall>::empty(),
        !m.running ==> run_model(m, cmds) == m,
        has_quit(cmds) ==> !run_model(m, cmds).running,
    decreases cmds.len(),
{
    if cmds.len() > 0 {
        let head = cmds[0];
        let rest = cmds.drop_first();
        let n = next_model(m, head.0, head.1);
        lemma_stopped_once(n, rest);
        let tail_calls = run_calls(n, rest);
        match call_for(m, head.0) {
            Some(c) => {
                assert((seq![c] + tail_calls).drop_first() == tail_calls);
                assert((seq![c] + tail_calls)[0] == c);
            },
            None => {},
        }
        if has_quit(rest) {
            let i = choose|i: int| 0 <= i < rest.len() && (#[trigger] rest[i]).0 is Quit;
            assert(cmds[i + 1] == rest[i]);
        }
        if has_quit(cmds) && !(head.0 is Quit) {
            let i = choose|i: int| 0 <= i < cmds.len() && (#[trigger] cmds[i]).0 is Quit;
            assert(rest[i - 1] == cmds[i]);
        }
        if head.0 is Quit {
            assert(cmds[0].0 is Quit);
        }
    }
}

} // verus!
