//! The terminal interface's state: what is shown and selected, and how keys
//! and clicks change it.

pub mod app;
pub mod widgets;
