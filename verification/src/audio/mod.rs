//! What the player and the audio engine say to each other.

pub mod pipeline;
