//! The Subsonic API: catalogue models, authentication parameters, request
//! building and response reading.

pub mod auth;
pub mod client;
pub mod error;
pub mod models;
pub mod response;

pub use client::SubsonicClient;
pub use models::{Album, Artist, Genre, Playlist, Song};
