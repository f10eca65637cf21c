//! The browser's tabs.

use vstd::prelude::*;

verus! {

/// The titles of the browser's tabs, in order.
pub const TAB_TITLES: [&'static str; 7] = [
    "Albums", "Artists", "Songs", "Playlists", "Genres", "Starred", "History",
];

/// The byte lengths of the tab titles.
pub open spec fn tab_title_lengths() -> Seq<nat> {
    seq![6, 7, 5, 9, 6, 7, 7]
}

/// The columns a tab takes in the tab bar: its title, one column of padding
/// on each side and, but for the last, a three-column divider.
pub open spec fn tab_width(i: int) -> nat {
    tab_title_lengths()[i] + 2 + if i < 6 { 3nat } else { 0 }
}

/// The width in columns of tab `i` of the tab bar.
pub fn tab_columns(i: usize) -> (r: u16)
    requires
        i < 7,
    ensures
        r == tab_width(i as int),
{
    let lens: [u16; 7] = [6, 7, 5, 9, 6, 7, 7];
    let divider: u16 = if i < 6 { 3 } else { 0 };
    lens[i] + 2 + divider
}

} // verus!
