//! The server manager panel's contents.

use vstd::prelude::*;

use crate::config::models::ServerConfig;

verus! {

/// What the server manager shows: the servers with the active and selected
/// one, the form for a new server (name, url, username, password), the field
/// being edited, a status line, and whether the list has the focus.
pub struct ServerMgrState<'a> {
    pub servers: &'a [ServerConfig],
    pub active_index: i32,
    pub selected: Option<usize>,
    pub form_fields: &'a [String],
    pub active_field: usize,
    pub status_msg: &'a str,
    pub focus_list: bool,
}

} // verus!
