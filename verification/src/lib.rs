//! A music player library for Subsonic/Navidrome servers: the play queue with
//! shuffle and repeat, the catalogue models, request and URL building, the
//! configuration rules and the player state machine.

use vstd::prelude::*;

pub mod audio;
pub mod config;
pub mod double;
pub mod equalizer;
pub mod json;
pub mod player;
pub mod queue;
pub mod subsonic;
pub mod text;
pub mod tui;
pub mod utils;

verus! {

} // verus!
