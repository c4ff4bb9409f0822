//! Playback core of a rhythm-game style tablature player: the engine's
//! transport state machine, the render-side player and position
//! synchroniser, input and menu decisions, and the song data model.

pub mod engine;
pub mod guitar;
pub mod menu;
pub mod notation;
pub mod player;
pub mod song;
pub mod sync;
