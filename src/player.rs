//! The render side of playback: the player's own view of the song position,
//! the keyboard's transport controls, and how a player event turns into an
//! engine command.
//!
//! Times are microseconds; `now` is a reading of a monotonic clock.

use vstd::prelude::*;
use crate::engine::{next_model, position_at, EngineCommand, EngineModel};
use crate::sync::{advanced, scaled, scaled_tick, NORMAL_SPEED};

verus! {

/// A small step through the song, taken with an arrow key.
pub const SCROLL_DISTANCE: u64 = 50_000;

/// A large step through the song, taken with an arrow key and shift.
pub const JUMP_DISTANCE: u64 = 500_000;

/// A transport request from the user interface.
#[derive(Clone, Copy, Debug, PartialEq, Eq, Structural)]
pub enum PlayerEvent {
    /// Rewind and play the loaded song from the start, including any lead-in silence.
    StartPlaying,
    /// Pause at the current position; playing goes on from there when resumed.
    PausePlaying,
    /// Resume playing from the last paused position.
    ResumePlaying,
    /// Move forwards by the given number of microseconds.
    JumpForwards(u64),
    /// Move backwards by the given number of microseconds, stopping at the start.
    JumpBackwards(u64),
}

/// Whether the player screen shows the song as playing.
#[derive(Clone, Copy, Debug, PartialEq, Eq, Hash, Structural)]
pub enum PlayerState {
    Playing,
    Paused,
}

/// The player's view of the song position.
#[derive(Clone, Copy, Debug, PartialEq, Eq)]
pub struct Player {
    /// Clock reading at which playing last started or resumed.
    pub last_start: u64,
    /// Position in the song, in microseconds.
    pub song_position: u64,
    /// Playback speed in thousandths of normal speed.
    pub player_speed: u32,
    pub playing: bool,
}

/// The keys that drive playback, as read in one frame.
#[derive(Clone, Copy, Debug, PartialEq, Eq, Default)]
pub struct KeyInput {
    /// Space went down in this frame.
    pub space_just_pressed: bool,
    /// R is held.
    pub restart: bool,
    /// The left arrow is held.
    pub left: bool,
    /// The right arrow is held.
    pub right: bool,
    pub shift_left: bool,
    pub shift_right: bool,
}

/// The event that the keys ask for while the player is in `state`: space
/// toggles between playing and paused, R starts over, and the arrows step
/// backwards or forwards, further with shift held. Earlier keys in that
/// list take precedence.
pub open spec fn key_event(keys: KeyInput, state: PlayerState) -> Option<PlayerEvent> {
    let step = if keys.shift_left || keys.shift_right { JUMP_DISTANCE } else { SCROLL_DISTANCE };
    if keys.space_just_pressed {
        match state {
            PlayerState::Playing => Some(PlayerEvent::PausePlaying),
            PlayerState::Paused => Some(PlayerEvent::ResumePlaying),
        }
    } else if keys.restart {
        Some(PlayerEvent::StartPlaying)
    } else if keys.left {
        Some(PlayerEvent::JumpBackwards(step))
    } else if keys.right {
        Some(PlayerEvent::JumpForwards(step))
    } else {
        None
    }
}

/// Reads the transport keys of one frame into a player event.
pub fn handle_keyboard(keys: &KeyInput, state: PlayerState) -> (r: Option<PlayerEvent>)
    ensures
        r == key_event(*keys, state),
{
    if keys.space_just_pressed {
        match state {
            PlayerState::Playing => Some(PlayerEvent::PausePlaying),
            PlayerState::Paused => Some(PlayerEvent::ResumePlaying),
        }
    } else if keys.restart {
        Some(PlayerEvent::StartPlaying)
    } else if keys.left || keys.right {
        let step = if keys.shift_left || keys.shift_right {
            JUMP_DISTANCE
        } else {
            SCROLL_DISTANCE
        };
        if keys.left {
            Some(PlayerEvent::JumpBackwards(step))
        } else {
            Some(PlayerEvent::JumpForwards(step))
        }
    } else {
        None
    }
}

/// A song position as shown on a clock.
#[derive(Clone, Copy, Debug, PartialEq, Eq)]
pub struct ClockParts {
    pub hours: u64,
    /// Minutes past the hour.
    pub minutes: u64,
    /// Seconds past the minute.
    pub seconds: u64,
    /// Milliseconds past the second.
    pub millis: u64,
}

/// Splits a position in microseconds into hours, minutes, seconds and
/// milliseconds; what is under a millisecond is dropped.
pub fn clock_parts(position: u64) -> (r: ClockParts)
    ensures
        r.hours == position / 3_600_000_000,
        r.minutes == position / 60_000_000 % 60,
        r.seconds == position / 1_000_000 % 60,
        r.millis == position / 1_000 % 1_000,
{
    let total_millis = position / 1_000;
    let total_seconds = total_millis / 1_000;
    let total_minutes = total_seconds / 60;
    proof {
        vstd::arithmetic::div_mod::lemma_div_denominator(position as int, 1_000, 1_000);
        vstd::arithmetic::div_mod::lemma_div_denominator(position as int, 1_000_000, 60);
        vstd::arithmetic::div_mod::lemma_div_denominator(position as int, 60_000_000, 60);
    }
    ClockParts {
        hours: total_minutes / 60,
        minutes: total_minutes % 60,
        seconds: total_seconds % 60,
        millis: total_millis % 1_000,
    }
}

/// What handling a player event asks of the rest of the application.
#[derive(Clone, Copy, Debug, PartialEq, Eq)]
pub struct PlayerResponse {
    /// The command to send to the engine.
    pub command: EngineCommand,
    /// The state the player screen moves to, if it changes.
    pub next_state: Option<PlayerState>,
}

impl Player {
    /// A paused player at the start of the song, at normal speed.
    pub fn new() -> (r: Player)
        ensures
            r == (Player { last_start: 0, song_position: 0, player_speed: NORMAL_SPEED, playing: false }),
    {
        Player { last_start: 0, song_position: 0, player_speed: NORMAL_SPEED, playing: false }
    }

    /// Whether the song is playing.
    pub fn playing(&self) -> (r: bool)
        ensures
            r == self.playing,
    {
        self.playing
    }

    /// Back to the start of the song, with the clock restarted at `now`.
    pub fn rewind(&mut self, now: u64)
        ensures
            *final(self) == (Player { song_position: 0, last_start: now, ..*old(self) }),
    {
        self.song_position = 0;
        self.last_start = now;
    }

    /// Stops the position from moving on.
    pub fn pause(&mut self)
        ensures
            *final(self) == (Player { playing: false, ..*old(self) }),
    {
        self.playing = false;
    }

    /// Lets the position move on again from where it stands, with the clock
    /// restarted at `now`.
    pub fn resume(&mut self, now: u64)
        ensures
            *final(self) == (Player { playing: true, last_start: now, ..*old(self) }),
    {
        self.last_start = now;
        self.playing = true;
    }

    /// Moves the position forwards by `diff`, whether playing or not; the
    /// position is held at `u64::MAX`.
    pub fn jump_forwards(&mut self, diff: u64)
        ensures
            *final(self) == (Player { song_position: old(self).song_position.saturating_add(diff), ..*old(self) }),
    {
        self.song_position = self.song_position.saturating_add(diff);
    }

    /// Moves the position backwards by `diff`, whether playing or not; a
    /// jump past the start lands on the start.
    pub fn jump_backwards(&mut self, diff: u64)
        ensures
            final(self).song_position == (if diff >= old(self).song_position {
                0
            } else {
                old(self).song_position - diff
            }),
            *final(self) == (Player { song_position: final(self).song_position, ..*old(self) }),
    {
        if diff >= self.song_position {
            self.song_position = 0;
        } else {
            self.song_position = self.song_position - diff;
        }
    }

    /// One fixed tick of `tick` microseconds: while playing, the position
    /// moves on by the tick at the player's speed.
    pub fn advance(&mut self, tick: u64)
        ensures
            *final(self) == (Player {
                song_position: if old(self).playing {
                    advanced(old(self).song_position, scaled(tick, old(self).player_speed))
                } else {
                    old(self).song_position
                },
                ..*old(self)
            }),
    {
        if self.playing {
            self.song_position = self.song_position.saturating_add(scaled_tick(tick, self.player_speed));
        }
    }

    /// Handles one player event at clock reading `now`: updates the player
    /// and says which engine command to send and which state to show.
    /// Starting over asks the engine to play the song from the start; a jump
    /// asks it to seek to the player's new position and leaves the state
    /// as it is.
    pub fn handle_event(&mut self, event: PlayerEvent, now: u64) -> (r: PlayerResponse)
        ensures
            *final(self) == event_model(*old(self), event, now),
            r == event_response(*old(self), event, now),
    {
        match event {
            PlayerEvent::StartPlaying => {
                self.rewind(now);
                self.resume(now);
                PlayerResponse { command: EngineCommand::PlaySong, next_state: Some(PlayerState::Playing) }
            },
            PlayerEvent::ResumePlaying => {
                self.resume(now);
                PlayerResponse { command: EngineCommand::Resume, next_state: Some(PlayerState::Playing) }
            },
            PlayerEvent::PausePlaying => {
                self.pause();
                PlayerResponse { command: EngineCommand::Pause, next_state: Some(PlayerState::Paused) }
            },
            PlayerEvent::JumpForwards(diff) => {
                self.jump_forwards(diff);
                PlayerResponse { command: EngineCommand::Seek(self.song_position), next_state: None }
            },
            PlayerEvent::JumpBackwards(diff) => {
                self.jump_backwards(diff);
                PlayerResponse { command: EngineCommand::Seek(self.song_position), next_state: None }
            },
        }
    }
}

/// `p` with its position moved back by `diff`, stopping at the start.
pub open spec fn back_by(p: Player, diff: u64) -> Player {
    Player { song_position: p.song_position.saturating_sub(diff), ..p }
}

/// The player after `event` at clock reading `now`.
pub open spec fn event_model(p: Player, event: PlayerEvent, now: u64) -> Player {
    match event {
        PlayerEvent::StartPlaying => Player { song_position: 0, last_start: now, playing: true, ..p },
        PlayerEvent::ResumePlaying => Player { last_start: now, playing: true, ..p },
        PlayerEvent::PausePlaying => Player { playing: false, ..p },
        PlayerEvent::JumpForwards(diff) => Player {
            song_position: p.song_position.saturating_add(diff),
            ..p
        },
        PlayerEvent::JumpBackwards(diff) => back_by(p, diff),
    }
}

/// What handling `event` asks of the engine and the screen.
pub open spec fn event_response(p: Player, event: PlayerEvent, now: u64) -> PlayerResponse {
    match event {
        PlayerEvent::StartPlaying => PlayerResponse {
            command: EngineCommand::PlaySong,
            next_state: Some(PlayerState::Playing),
        },
        PlayerEvent::ResumePlaying => PlayerResponse {
            command: EngineCommand::Resume,
            next_state: Some(PlayerState::Playing),
        },
        PlayerEvent::PausePlaying => PlayerResponse {
            command: EngineCommand::Pause,
            next_state: Some(PlayerState::Paused),
        },
        PlayerEvent::JumpForwards(_) | PlayerEvent::JumpBackwards(_) => PlayerResponse {
            command: EngineCommand::Seek(event_model(p, event, now).song_position),
            next_state: None,
        },
    }
}

impl Default for Player {
    fn default() -> (r: Player)
        ensures
            r == (Player { last_start: 0, song_position: 0, player_speed: NORMAL_SPEED, playing: false }),
    {
        Player::new()
    }
}

/// A jump sends the engine to the player's new position, which the engine
/// then reports at once, without changing whether it plays.
pub proof fn lemma_jump_keeps_engine_in_step(m: EngineModel, p: Player, event: PlayerEvent, now: u64)
    requires
        m.running,
        event is JumpForwards || event is JumpBackwards,
    ensures
        ({
            let sent = event_response(p, event, now).command;
            &&& position_at(next_model(m, sent, now), now) == event_model(p, event, now).song_position
            &&& next_model(m, sent, now).state == m.state
            &&& event_model(p, event, now).playing == p.playing
        }),
{
}

} // verus!
