//! The player's control state.

pub mod engine;

pub use crate::audio::pipeline::PlaybackState;
pub use engine::Player;
