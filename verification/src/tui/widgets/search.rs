//! The search panel's contents.

use vstd::prelude::*;

use crate::subsonic::models::{Album, Artist, Song};

verus! {

/// What the search panel shows: the query, the three result lists, the tab
/// shown (songs, albums, artists) and the selected row.
pub struct SearchState<'a> {
    pub query: &'a str,
    pub artists: &'a [Artist],
    pub albums: &'a [Album],
    pub songs: &'a [Song],
    pub active_tab: usize,
    pub selected: Option<usize>,
}

} // verus!
