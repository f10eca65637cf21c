//! What the interface's panels show.

pub mod browser;
pub mod search;
pub mod server_mgr;
