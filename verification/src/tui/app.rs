//! The interface's state and how keys and clicks change it. Each handler
//! updates the state and answers the work it leaves to the application
//! (playing, fetching from the server, saving the configuration).

use vstd::prelude::*;

use crate::config::models::ServerConfig;
use crate::queue::RepeatMode;
use crate::subsonic::models::Song;
use crate::text::{decimal, owned, push_char, str_eq, u64_to_string};
use crate::tui::widgets::browser::{tab_columns, tab_width};
use vstd::utf8::encode_utf8;

verus! {

/// Number of browser tabs.
pub const TAB_COUNT: usize = 7;

/// Most browsing steps remembered for going back.
pub const NAV_HISTORY_CAP: usize = 50;

/// The name of the playlist the queue is saved as.
pub const QUEUE_PLAYLIST_NAME: &'static str = "Saved Queue";

/// Number of album orderings the albums tab cycles through.
pub const ALBUM_SORT_COUNT: usize = 6;

/// A key as the interface reads it.
#[derive(Debug, Clone, Copy, PartialEq, Eq, Structural)]
pub enum Key {
    Char(char),
    Enter,
    Esc,
    Backspace,
    Delete,
    Tab,
    Up,
    Down,
    Left,
    Right,
    Other,
}

/// A panel shown over the others.
#[derive(Debug, Clone, Copy, PartialEq, Eq, Structural)]
pub enum ModalKind {
    Search,
    Help,
    ServerManager,
}

/// Which list the arrow keys move in.
#[derive(Debug, Clone, Copy, PartialEq, Eq, Structural)]
pub enum Focus {
    Browser,
    Queue,
}

/// What the application knows that a key's meaning depends on.
#[derive(Debug, Clone, Copy, PartialEq, Eq, Structural)]
pub struct UiContext {
    /// Length of the list the active tab shows.
    pub tab_len: usize,
    pub queue_len: usize,
    pub player_stopped: bool,
    pub search_songs: usize,
    pub search_albums: usize,
    pub search_artists: usize,
    pub servers_len: usize,
}

/// Work a key leaves to the application.
#[derive(Debug, Clone, PartialEq, Eq)]
pub enum UiAction {
    Quit,
    /// Play the queue's current song.
    PlayCurrent,
    TogglePause,
    NextTrack,
    PrevTrack,
    Stop,
    /// Seek by a number of seconds.
    Seek(i32),
    VolumeUp(u32),
    VolumeDown(u32),
    MuteToggle,
    ToggleShuffle,
    CycleRepeat,
    /// Add the song at `index` of the song list of tab `tab` to the queue.
    AddToQueue { tab: usize, index: usize },
    RemoveFromQueue(usize),
    ClearQueue,
    MoveQueueItem { from: usize, to: usize },
    /// Open the selected entry (see `select_target`).
    SelectCurrent,
    /// Fetch the contents of a tab again.
    ReloadTab(usize),
    LoadLyrics,
    /// Star or unstar the song at `index` of the song list of tab `tab`.
    ToggleStar { tab: usize, index: usize },
    StartRadio,
    /// Raise or lower the gain of a band by 1 dB.
    EqBandStep { band: usize, up: bool },
    EqReset,
    /// Load the next (or previous) equalizer preset.
    EqCyclePreset { backward: bool },
    Search(String),
    ClearSearchResults,
    SelectSearchResult { tab: usize, index: usize },
    SwitchServer(usize),
    AddServer { name: String, url: String, username: String, password: String },
    RemoveServer(usize),
    /// Seek to the point `offset` of `width` along the seek bar.
    SeekBar { offset: u16, width: u16 },
    /// Save the queue, in play order, as a new playlist named `QUEUE_PLAYLIST_NAME`.
    SaveQueueAsPlaylist,
}

/// The interface's state.
pub struct UiState {
    pub active_tab: usize,
    pub focus: Focus,
    pub active_modal: Option<ModalKind>,
    pub eq_visible: bool,
    pub lyrics_visible: bool,
    pub should_quit: bool,
    /// The selected row of each tab.
    pub tab_selected: Vec<Option<usize>>,
    pub queue_selected: Option<usize>,
    /// Tabs and selections to go back to, the latest last.
    pub nav_history: Vec<(usize, Option<usize>)>,
    pub album_sort_index: usize,
    pub search_query: String,
    pub search_tab: usize,
    pub search_selected: Option<usize>,
    pub server_selected: Option<usize>,
    /// The new server form: name, url, username, password.
    pub server_form: Vec<String>,
    pub server_active_field: usize,
    pub server_status: String,
    pub server_focus_list: bool,
    pub eq_selected_band: usize,
}

/// A selection moved one row up or down within a list of `len` rows.
pub open spec fn stepped(current: Option<usize>, len: nat, up: bool) -> Option<usize> {
    let cur: int = match current {
        Some(c) => c as int,
        None => 0,
    };
    let n: int = if up { cur - 1 } else { cur + 1 };
    Some(
        (if n < 0 {
            0
        } else if n > len - 1 {
            len - 1
        } else {
            n
        }) as usize,
    )
}

/// A selection after the list it points into shrank to `len` rows.
pub open spec fn kept_in(sel: Option<usize>, idx: usize, len: nat) -> Option<usize> {
    if len == 0 {
        None
    } else if idx >= len {
        Some((len - 1) as usize)
    } else {
        sel
    }
}

impl UiState {
    /// The state's shape: a selection per tab, four form fields, and every
    /// index within its range.
    pub open spec fn wf(&self) -> bool {
        &&& self.tab_selected@.len() == TAB_COUNT
        &&& self.server_form@.len() == 4
        &&& self.active_tab < TAB_COUNT
        &&& self.search_tab < 3
        &&& self.server_active_field < 4
        &&& self.eq_selected_band < 18
        &&& self.album_sort_index < ALBUM_SORT_COUNT
        &&& self.nav_history@.len() <= NAV_HISTORY_CAP
        &&& forall|k: int| 0 <= k < self.nav_history@.len() ==> (#[trigger] self.nav_history@[k]).0
            < TAB_COUNT
    }

    /// The state at start: the albums tab, every tab at its first row, no
    /// panel open, the server list focused with its first server selected
    /// when there is one.
    pub fn new(has_servers: bool) -> (r: UiState)
        ensures
            r.wf(),
            r.active_tab == 0,
            r.focus == Focus::Browser,
            r.active_modal is None,
            !r.eq_visible && !r.lyrics_visible && !r.should_quit,
            forall|k: int| 0 <= k < TAB_COUNT ==> r.tab_selected@[k] == Some(0usize),
            r.queue_selected is None,
            r.nav_history@.len() == 0,
            r.album_sort_index == 0,
            r.search_query@.len() == 0,
            r.search_tab == 0,
            r.search_selected is None,
            r.server_selected == (if has_servers {
                Some(0usize)
            } else {
                None
            }),
            forall|k: int| 0 <= k < 4 ==> (#[trigger] r.server_form@[k])@.len() == 0,
            r.server_active_field == 0,
            r.server_status@.len() == 0,
            r.server_focus_list,
            r.eq_selected_band == 0,
    {
        let mut tab_selected: Vec<Option<usize>> = Vec::new();
        let mut i: usize = 0;
        while i < TAB_COUNT
            invariant
                i <= TAB_COUNT,
                tab_selected@.len() == i,
                forall|k: int| 0 <= k < i ==> tab_selected@[k] == Some(0usize),
            decreases TAB_COUNT - i,
        {
            tab_selected.push(Some(0));
            i = i + 1;
        }
        let mut server_form: Vec<String> = Vec::new();
        server_form.push(String::new());
        server_form.push(String::new());
        server_form.push(String::new());
        server_form.push(String::new());
        UiState {
            active_tab: 0,
            focus: Focus::Browser,
            active_modal: None,
            eq_visible: false,
            lyrics_visible: false,
            should_quit: false,
            tab_selected,
            queue_selected: None,
            nav_history: Vec::new(),
            album_sort_index: 0,
            search_query: String::new(),
            search_tab: 0,
            search_selected: None,
            server_selected: if has_servers {
                Some(0)
            } else {
                None
            },
            server_form,
            server_active_field: 0,
            server_status: String::new(),
            server_focus_list: true,
            eq_selected_band: 0,
        }
    }
}

/// One row up or down within a list of `len` rows (none when empty).
fn step(current: Option<usize>, len: usize, up: bool) -> (r: Option<usize>)
    requires
        len > 0,
    ensures
        r == stepped(current, len as nat, up),
{
    let cur: usize = match current {
        Some(c) => c,
        None => 0,
    };
    if up {
        if cur == 0 {
            Some(0)
        } else if cur - 1 > len - 1 {
            Some(len - 1)
        } else {
            Some(cur - 1)
        }
    } else {
        if cur >= len - 1 {
            Some(len - 1)
        } else {
            Some(cur + 1)
        }
    }
}


/// Esc, q, ? and i close the help panel; other keys do nothing there.
pub open spec fn closes_help(key: Key) -> bool {
    key == Key::Esc || key == Key::Char('q') || key == Key::Char('?') || key == Key::Char('i')
}

/// The effect of a key on the help panel.
pub open spec fn help_key_effect(old: UiState, new: UiState, key: Key, r: Seq<UiAction>) -> bool {
    &&& r.len() == 0
    &&& new == (if closes_help(key) {
        UiState { active_modal: None, ..old }
    } else {
        old
    })
}

impl UiState {
    /// A key while the help panel is open.
    pub fn help_key(&mut self, key: Key) -> (r: Vec<UiAction>)
        ensures
            help_key_effect(*old(self), *final(self), key, r@),
    {
        if key == Key::Esc || key == Key::Char('q') || key == Key::Char('?') || key == Key::Char(
            'i',
        ) {
            self.active_modal = None;
        }
        Vec::new()
    }
}


/// The keys the equalizer panel takes while it is shown.
pub open spec fn eq_handles(key: Key) -> bool {
    ||| key == Key::Esc
    ||| key == Key::Char('e')
    ||| key == Key::Left
    ||| key == Key::Right
    ||| key == Key::Up
    ||| key == Key::Down
    ||| key == Key::Char('r')
    ||| key == Key::Char('p')
    ||| key == Key::Char('P')
}

/// The effect of a key the equalizer panel takes: close it, choose a band,
/// step the band's gain, reset, or cycle the presets.
pub open spec fn eq_key_effect(old: UiState, new: UiState, key: Key, r: Seq<UiAction>) -> bool {
    if key == Key::Esc || key == Key::Char('e') {
        new == UiState { eq_visible: false, ..old } && r.len() == 0
    } else if key == Key::Left {
        new == UiState {
            eq_selected_band: if old.eq_selected_band == 0 {
                0
            } else {
                (old.eq_selected_band - 1) as usize
            },
            ..old
        } && r.len() == 0
    } else if key == Key::Right {
        new == UiState {
            eq_selected_band: if old.eq_selected_band >= 17 {
                17
            } else {
                (old.eq_selected_band + 1) as usize
            },
            ..old
        } && r.len() == 0
    } else if key == Key::Up || key == Key::Down {
        new == old && r == seq![
            UiAction::EqBandStep { band: old.eq_selected_band, up: key == Key::Up },
        ]
    } else if key == Key::Char('r') {
        new == old && r == seq![UiAction::EqReset]
    } else {
        new == old && r == seq![UiAction::EqCyclePreset { backward: key == Key::Char('P') }]
    }
}

/// The song lists of the songs, starred and history tabs.
pub open spec fn is_song_tab(tab: usize) -> bool {
    tab == 2 || tab == 5 || tab == 6
}

/// The selected row of the active tab when it is a song list and the row
/// exists.
pub open spec fn selected_song(s: UiState, ctx: UiContext) -> Option<usize> {
    if is_song_tab(s.active_tab) {
        match s.tab_selected@[s.active_tab as int] {
            Some(idx) => if idx < ctx.tab_len {
                Some(idx)
            } else {
                None
            },
            None => None,
        }
    } else {
        None
    }
}

/// The digit keys choose the tabs: '1' the first.
pub open spec fn tab_of_digit(c: char) -> Option<usize> {
    if '1' <= c && c <= '7' {
        Some((c as u32 - '1' as u32) as usize)
    } else {
        None
    }
}

/// The effect of a key on the main view.
pub open spec fn global_key_effect(
    old: UiState,
    new: UiState,
    key: Key,
    shift: bool,
    ctx: UiContext,
    r: Seq<UiAction>,
) -> bool {
    match key {
        Key::Char(c) => if c == 'q' {
            new == UiState { should_quit: true, ..old } && r.len() == 0
        } else if c == ' ' {
            new == old && r == seq![
                if ctx.player_stopped {
                    UiAction::PlayCurrent
                } else {
                    UiAction::TogglePause
                },
            ]
        } else if c == 'n' {
            new == old && r == seq![UiAction::NextTrack]
        } else if c == 'p' {
            new == old && r == seq![UiAction::PrevTrack]
        } else if c == 's' {
            new == old && r == seq![UiAction::Stop]
        } else if c == '+' || c == '=' {
            new == old && r == seq![UiAction::VolumeUp(5)]
        } else if c == '-' || c == '_' {
            new == old && r == seq![UiAction::VolumeDown(5)]
        } else if c == 'm' {
            new == old && r == seq![UiAction::MuteToggle]
        } else if c == 'z' {
            new == old && r == seq![UiAction::ToggleShuffle]
        } else if c == 'r' {
            new == old && r == seq![UiAction::CycleRepeat]
        } else if c == 'a' {
            new == old && r == match selected_song(old, ctx) {
                Some(idx) => seq![UiAction::AddToQueue { tab: old.active_tab, index: idx }],
                None => Seq::empty(),
            }
        } else if c == 'd' {
            removed_from_queue(old, new, ctx, r)
        } else if c == 'c' {
            new == old && r == seq![UiAction::ClearQueue]
        } else if tab_of_digit(c) is Some {
            switched_tab(old, new, tab_of_digit(c)->0, r)
        } else if c == '/' {
            new == UiState { active_modal: Some(ModalKind::Search), search_query: new.search_query, ..old }
                && new.search_query@.len() == 0 && r.len() == 0
        } else if c == 'e' {
            new == UiState { eq_visible: !old.eq_visible, ..old } && r.len() == 0
        } else if c == 'l' {
            new == UiState { lyrics_visible: !old.lyrics_visible, ..old } && r == (if new.lyrics_visible {
                seq![UiAction::LoadLyrics]
            } else {
                Seq::empty()
            })
        } else if c == 'f' {
            new == old && r == match selected_song(old, ctx) {
                Some(idx) => seq![UiAction::ToggleStar { tab: old.active_tab, index: idx }],
                None => Seq::empty(),
            }
        } else if c == 'R' {
            new == old && r == seq![UiAction::StartRadio]
        } else if c == 'P' {
            new == old && r == (if ctx.queue_len > 0 {
                seq![UiAction::SaveQueueAsPlaylist]
            } else {
                Seq::empty()
            })
        } else if c == 'o' {
            new == UiState {
                album_sort_index: ((old.album_sort_index + 1) % ALBUM_SORT_COUNT as int) as usize,
                ..old
            } && r == seq![UiAction::ReloadTab(0)]
        } else if c == 'S' {
            new == UiState { active_modal: Some(ModalKind::ServerManager), ..old } && r.len() == 0
        } else if c == '?' || c == 'i' {
            new == UiState { active_modal: Some(ModalKind::Help), ..old } && r.len() == 0
        } else {
            new == old && r.len() == 0
        },
        Key::Right => new == old && r == seq![UiAction::Seek(if shift { 30i32 } else { 5i32 })],
        Key::Left => new == old && r == seq![UiAction::Seek(if shift { -30i32 } else { -5i32 })],
        Key::Delete => removed_from_queue(old, new, ctx, r),
        Key::Up => if shift {
            moved_queue_item(old, new, ctx, true, r)
        } else {
            moved_selection(old, new, ctx, true) && r.len() == 0
        },
        Key::Down => if shift {
            moved_queue_item(old, new, ctx, false, r)
        } else {
            moved_selection(old, new, ctx, false) && r.len() == 0
        },
        Key::Enter => new == old && r == seq![UiAction::SelectCurrent],
        Key::Esc | Key::Backspace => went_back(old, new, r),
        Key::Tab => cycled_focus(old, new, ctx) && r.len() == 0,
        Key::Other => new == old && r.len() == 0,
    }
}

/// Removing the selected queue row (when the queue has the focus): the
/// selection stays within the shorter queue.
pub open spec fn removed_from_queue(old: UiState, new: UiState, ctx: UiContext, r: Seq<UiAction>) -> bool {
    if old.focus == Focus::Queue && old.queue_selected is Some {
        let idx = old.queue_selected->0;
        let len: nat = if idx < ctx.queue_len {
            (ctx.queue_len - 1) as nat
        } else {
            ctx.queue_len as nat
        };
        &&& r == seq![UiAction::RemoveFromQueue(idx)]
        &&& new == UiState { queue_selected: kept_in(old.queue_selected, idx, len), ..old }
    } else {
        new == old && r.len() == 0
    }
}

/// Moving the selected queue row up or down by one, with the selection.
pub open spec fn moved_queue_item(old: UiState, new: UiState, ctx: UiContext, up: bool, r: Seq<UiAction>) -> bool {
    if old.focus == Focus::Queue && old.queue_selected is Some && (if up {
        old.queue_selected->0 > 0
    } else {
        old.queue_selected->0 + 1 < ctx.queue_len
    }) {
        let idx = old.queue_selected->0;
        let to = (if up { idx - 1 } else { idx + 1 }) as usize;
        &&& r == seq![UiAction::MoveQueueItem { from: idx, to }]
        &&& new == UiState { queue_selected: Some(to), ..old }
    } else {
        new == old && r.len() == 0
    }
}

/// Moving the selection of the focused list one row.
pub open spec fn moved_selection(old: UiState, new: UiState, ctx: UiContext, up: bool) -> bool {
    match old.focus {
        Focus::Browser => if ctx.tab_len == 0 {
            new == old
        } else {
            new == UiState {
                tab_selected: new.tab_selected,
                ..old
            } && new.tab_selected@ == old.tab_selected@.update(
                old.active_tab as int,
                stepped(old.tab_selected@[old.active_tab as int], ctx.tab_len as nat, up),
            )
        },
        Focus::Queue => if ctx.queue_len == 0 {
            new == old
        } else {
            new == UiState {
                queue_selected: stepped(old.queue_selected, ctx.queue_len as nat, up),
                ..old
            }
        },
    }
}

/// Going back to the last remembered tab and selection, which is fetched again.
pub open spec fn went_back(old: UiState, new: UiState, r: Seq<UiAction>) -> bool {
    if old.nav_history@.len() == 0 {
        new == old && r.len() == 0
    } else {
        let tab = old.nav_history@.last().0;
        let sel = old.nav_history@.last().1;
        &&& new == UiState {
            active_tab: tab,
            tab_selected: new.tab_selected,
            nav_history: new.nav_history,
            ..old
        }
        &&& new.nav_history@ == old.nav_history@.drop_last()
        &&& new.tab_selected@ == old.tab_selected@.update(tab as int, sel)
        &&& r == seq![UiAction::ReloadTab(tab)]
    }
}

/// Switching to another tab, which is fetched again; the active tab stays.
pub open spec fn switched_tab(old: UiState, new: UiState, tab: usize, r: Seq<UiAction>) -> bool {
    if tab == old.active_tab {
        new == old && r.len() == 0
    } else {
        new == UiState { active_tab: tab, ..old } && r == seq![UiAction::ReloadTab(tab)]
    }
}

/// Moving the focus to the other list; the queue's first row is selected
/// when it gets the focus with nothing selected.
pub open spec fn cycled_focus(old: UiState, new: UiState, ctx: UiContext) -> bool {
    let focus = if old.focus == Focus::Browser {
        Focus::Queue
    } else {
        Focus::Browser
    };
    new == UiState {
        focus,
        queue_selected: if focus == Focus::Queue && old.queue_selected is None && ctx.queue_len > 0 {
            Some(0usize)
        } else {
            old.queue_selected
        },
        ..old
    }
}

/// The number of results of a search tab (songs, albums, artists).
pub open spec fn search_len(ctx: UiContext, tab: usize) -> nat {
    if tab == 0 {
        ctx.search_songs as nat
    } else if tab == 1 {
        ctx.search_albums as nat
    } else if tab == 2 {
        ctx.search_artists as nat
    } else {
        0
    }
}

/// The query after one character less (none when empty).
pub open spec fn without_last(q: Seq<char>) -> Seq<char> {
    if q.len() == 0 {
        q
    } else {
        q.drop_last()
    }
}

/// The work a query asks for: a search once it has two bytes.
pub open spec fn query_actions(q: Seq<char>, r: Seq<UiAction>, clear_when_short: bool) -> bool {
    if encode_utf8(q).len() >= 2 {
        &&& r.len() == 1
        &&& r[0] matches UiAction::Search(t) && t@ == q
    } else if clear_when_short {
        r == seq![UiAction::ClearSearchResults]
    } else {
        r.len() == 0
    }
}

/// The effect of a key on the search panel.
pub open spec fn search_key_effect(old: UiState, new: UiState, key: Key, ctx: UiContext, r: Seq<UiAction>) -> bool {
    match key {
        Key::Esc => new == UiState { active_modal: None, ..old } && r.len() == 0,
        Key::Char(c) => {
            &&& new == UiState { search_query: new.search_query, ..old }
            &&& new.search_query@ == old.search_query@.push(c)
            &&& query_actions(new.search_query@, r, false)
        },
        Key::Backspace => {
            &&& new == UiState { search_query: new.search_query, ..old }
            &&& new.search_query@ == without_last(old.search_query@)
            &&& query_actions(new.search_query@, r, true)
        },
        Key::Tab => new == UiState {
            search_tab: ((old.search_tab + 1) % 3) as usize,
            search_selected: Some(0usize),
            ..old
        } && r.len() == 0,
        Key::Up => {
            let cur = match old.search_selected {
                Some(i) => i,
                None => 0,
            };
            new == (if cur > 0 {
                UiState { search_selected: Some((cur - 1) as usize), ..old }
            } else {
                old
            }) && r.len() == 0
        },
        Key::Down => {
            let cur = match old.search_selected {
                Some(i) => i,
                None => 0,
            };
            new == (if cur + 1 < search_len(ctx, old.search_tab) {
                UiState { search_selected: Some((cur + 1) as usize), ..old }
            } else {
                old
            }) && r.len() == 0
        },
        Key::Enter => new == UiState { active_modal: None, ..old } && r == seq![
            UiAction::SelectSearchResult {
                tab: old.search_tab,
                index: match old.search_selected {
                    Some(i) => i,
                    None => 0,
                },
            },
        ],
        _ => new == old && r.len() == 0,
    }
}

/// The effect of a key on the server manager.
pub open spec fn server_key_effect(old: UiState, new: UiState, key: Key, ctx: UiContext, r: Seq<UiAction>) -> bool {
    match key {
        Key::Esc => new == UiState { active_modal: None, ..old } && r.len() == 0,
        Key::Tab => r.len() == 0 && new == (if old.server_focus_list {
            UiState { server_focus_list: false, server_active_field: 0, ..old }
        } else if old.server_active_field < 3 {
            UiState { server_active_field: (old.server_active_field + 1) as usize, ..old }
        } else {
            UiState { server_focus_list: true, ..old }
        }),
        Key::Up => r.len() == 0 && new == (if old.server_focus_list && old.server_selected is Some
            && old.server_selected->0 > 0 {
            UiState { server_selected: Some((old.server_selected->0 - 1) as usize), ..old }
        } else {
            old
        }),
        Key::Down => r.len() == 0 && new == (if !old.server_focus_list {
            old
        } else if old.server_selected is Some {
            if old.server_selected->0 + 1 < ctx.servers_len {
                UiState { server_selected: Some((old.server_selected->0 + 1) as usize), ..old }
            } else {
                old
            }
        } else if ctx.servers_len > 0 {
            UiState { server_selected: Some(0usize), ..old }
        } else {
            old
        }),
        Key::Enter => if old.server_focus_list {
            new == old && r == (if old.server_selected is Some && old.server_selected->0
                < ctx.servers_len {
                seq![UiAction::SwitchServer(old.server_selected->0)]
            } else {
                Seq::empty()
            })
        } else if exists|k: int| 0 <= k < 4 && (#[trigger] old.server_form@[k])@.len() == 0 {
            &&& new == UiState { server_status: new.server_status, ..old }
            &&& new.server_status@ == "All fields are required"@
            &&& r.len() == 0
        } else {
            &&& new == old
            &&& r.len() == 1
            &&& r[0] matches UiAction::AddServer { name, url, username, password } && name@
                == old.server_form@[0]@ && url@ == old.server_form@[1]@ && username@
                == old.server_form@[2]@ && password@ == old.server_form@[3]@
        },
        Key::Char(c) => r.len() == 0 && if old.server_focus_list {
            new == old
        } else {
            &&& new == UiState { server_form: new.server_form, ..old }
            &&& new.server_form@.len() == 4
            &&& forall|k: int|
                0 <= k < 4 && k != old.server_active_field ==> #[trigger] new.server_form@[k]
                    == old.server_form@[k]
            &&& new.server_form@[old.server_active_field as int]@ == (old.server_form@[
                old.server_active_field as int])@.push(c)
        },
        Key::Backspace => r.len() == 0 && if old.server_focus_list {
            new == old
        } else {
            &&& new == UiState { server_form: new.server_form, ..old }
            &&& new.server_form@.len() == 4
            &&& forall|k: int|
                0 <= k < 4 && k != old.server_active_field ==> #[trigger] new.server_form@[k]
                    == old.server_form@[k]
            &&& new.server_form@[old.server_active_field as int]@ == without_last(
                old.server_form@[old.server_active_field as int]@,
            )
        },
        Key::Delete => match old.server_selected {
            Some(idx) => {
                let len: nat = if idx < ctx.servers_len {
                    (ctx.servers_len - 1) as nat
                } else {
                    ctx.servers_len as nat
                };
                &&& r == seq![UiAction::RemoveServer(idx)]
                &&& new == UiState { server_selected: kept_in(Some(idx), idx, len), ..old }
            },
            None => new == old && r.len() == 0,
        },
        _ => new == old && r.len() == 0,
    }
}

/// A text without its last character.
fn drop_last_char(s: &String) -> (r: String)
    ensures
        r@ == without_last(s@),
{
    let n = s.as_str().unicode_len();
    if n == 0 {
        s.clone()
    } else {
        owned(s.as_str().substring_char(0, n - 1))
    }
}

/// The number of bytes of a text in UTF-8.
fn byte_len(s: &str) -> (r: usize)
    ensures
        r == encode_utf8(s@).len(),
{
    s.as_bytes().len()
}

impl UiState {
    /// A key while the equalizer panel is shown; `false` when the panel does
    /// not take the key (it then goes to the main view).
    pub fn eq_key(&mut self, key: Key) -> (r: (bool, Vec<UiAction>))
        ensures
            r.0 == eq_handles(key),
            r.0 ==> eq_key_effect(*old(self), *final(self), key, r.1@),
            !r.0 ==> *final(self) == *old(self) && r.1@.len() == 0,
    {
        let mut r: Vec<UiAction> = Vec::new();
        if key == Key::Esc || key == Key::Char('e') {
            self.eq_visible = false;
        } else if key == Key::Left {
            if self.eq_selected_band > 0 {
                self.eq_selected_band = self.eq_selected_band - 1;
            }
        } else if key == Key::Right {
            self.eq_selected_band = if self.eq_selected_band >= 17 {
                17
            } else {
                self.eq_selected_band + 1
            };
        } else if key == Key::Up || key == Key::Down {
            r.push(UiAction::EqBandStep { band: self.eq_selected_band, up: key == Key::Up });
        } else if key == Key::Char('r') {
            r.push(UiAction::EqReset);
        } else if key == Key::Char('p') || key == Key::Char('P') {
            r.push(UiAction::EqCyclePreset { backward: key == Key::Char('P') });
        } else {
            return (false, r);
        }
        (true, r)
    }

    /// Removes the selected queue row when the queue has the focus.
    fn remove_from_queue(&mut self, ctx: UiContext) -> (r: Vec<UiAction>)
        ensures
            removed_from_queue(*old(self), *final(self), ctx, r@),
    {
        let mut r: Vec<UiAction> = Vec::new();
        if self.focus == Focus::Queue {
            match self.queue_selected {
                Some(idx) => {
                    r.push(UiAction::RemoveFromQueue(idx));
                    let len = if idx < ctx.queue_len {
                        ctx.queue_len - 1
                    } else {
                        ctx.queue_len
                    };
                    if len == 0 {
                        self.queue_selected = None;
                    } else if idx >= len {
                        self.queue_selected = Some(len - 1);
                    }
                },
                None => {},
            }
        }
        r
    }

    /// Moves the selected queue row up or down by one.
    fn move_queue_item(&mut self, ctx: UiContext, up: bool) -> (r: Vec<UiAction>)
        ensures
            moved_queue_item(*old(self), *final(self), ctx, up, r@),
    {
        let mut r: Vec<UiAction> = Vec::new();
        if self.focus == Focus::Queue {
            match self.queue_selected {
                Some(idx) => {
                    if up && idx > 0 {
                        r.push(UiAction::MoveQueueItem { from: idx, to: idx - 1 });
                        self.queue_selected = Some(idx - 1);
                    } else if !up && idx < ctx.queue_len && idx + 1 < ctx.queue_len {
                        r.push(UiAction::MoveQueueItem { from: idx, to: idx + 1 });
                        self.queue_selected = Some(idx + 1);
                    }
                },
                None => {},
            }
        }
        r
    }

    /// Moves the selection of the focused list one row.
    fn move_selection(&mut self, ctx: UiContext, up: bool)
        requires
            old(self).wf(),
        ensures
            moved_selection(*old(self), *final(self), ctx, up),
    {
        match self.focus {
            Focus::Browser => {
                if ctx.tab_len > 0 {
                    let cur = self.tab_selected[self.active_tab];
                    let next = step(cur, ctx.tab_len, up);
                    self.tab_selected.set(self.active_tab, next);
                }
            },
            Focus::Queue => {
                if ctx.queue_len > 0 {
                    self.queue_selected = step(self.queue_selected, ctx.queue_len, up);
                }
            },
        }
    }

    /// Goes back to the last remembered tab and selection.
    fn go_back(&mut self) -> (r: Vec<UiAction>)
        requires
            old(self).wf(),
        ensures
            went_back(*old(self), *final(self), r@),
            final(self).wf(),
    {
        let mut r: Vec<UiAction> = Vec::new();
        if self.nav_history.len() == 0 {
            return r;
        }
        match self.nav_history.pop() {
            Some((tab, sel)) => {
                assert(old(self).nav_history@[old(self).nav_history@.len() - 1].0 < TAB_COUNT);
                self.active_tab = tab;
                self.tab_selected.set(tab, sel);
                r.push(UiAction::ReloadTab(tab));
            },
            None => {},
        }
        r
    }

    /// Switches to another tab.
    pub fn switch_tab(&mut self, tab: usize) -> (r: Vec<UiAction>)
        ensures
            switched_tab(*old(self), *final(self), tab, r@),
    {
        let mut r: Vec<UiAction> = Vec::new();
        if tab != self.active_tab {
            self.active_tab = tab;
            r.push(UiAction::ReloadTab(tab));
        }
        r
    }

    /// Moves the focus to the other list.
    fn cycle_focus(&mut self, ctx: UiContext)
        ensures
            cycled_focus(*old(self), *final(self), ctx),
    {
        self.focus = match self.focus {
            Focus::Browser => Focus::Queue,
            Focus::Queue => Focus::Browser,
        };
        if self.focus == Focus::Queue && self.queue_selected.is_none() && ctx.queue_len > 0 {
            self.queue_selected = Some(0);
        }
    }

    /// The selected song row of the active tab, when it is a song list.
    fn selected_song_row(&self, ctx: UiContext) -> (r: Option<usize>)
        requires
            self.wf(),
        ensures
            r == selected_song(*self, ctx),
    {
        if self.active_tab == 2 || self.active_tab == 5 || self.active_tab == 6 {
            match self.tab_selected[self.active_tab] {
                Some(idx) => if idx < ctx.tab_len {
                    Some(idx)
                } else {
                    None
                },
                None => None,
            }
        } else {
            None
        }
    }

    /// A key on the main view (no panel open).
    pub fn global_key(&mut self, key: Key, shift: bool, ctx: UiContext) -> (r: Vec<UiAction>)
        requires
            old(self).wf(),
        ensures
            global_key_effect(*old(self), *final(self), key, shift, ctx, r@),
            final(self).wf(),
    {
        let mut r: Vec<UiAction> = Vec::new();
        match key {
            Key::Char(c) => {
                if c == 'q' {
                    self.should_quit = true;
                } else if c == ' ' {
                    r.push(
                        if ctx.player_stopped {
                            UiAction::PlayCurrent
                        } else {
                            UiAction::TogglePause
                        },
                    );
                } else if c == 'n' {
                    r.push(UiAction::NextTrack);
                } else if c == 'p' {
                    r.push(UiAction::PrevTrack);
                } else if c == 's' {
                    r.push(UiAction::Stop);
                } else if c == '+' || c == '=' {
                    r.push(UiAction::VolumeUp(5));
                } else if c == '-' || c == '_' {
                    r.push(UiAction::VolumeDown(5));
                } else if c == 'm' {
                    r.push(UiAction::MuteToggle);
                } else if c == 'z' {
                    r.push(UiAction::ToggleShuffle);
                } else if c == 'r' {
                    r.push(UiAction::CycleRepeat);
                } else if c == 'a' {
                    match self.selected_song_row(ctx) {
                        Some(idx) => r.push(UiAction::AddToQueue { tab: self.active_tab, index: idx }),
                        None => {},
                    }
                } else if c == 'd' {
                    r = self.remove_from_queue(ctx);
                } else if c == 'c' {
                    r.push(UiAction::ClearQueue);
                } else if '1' <= c && c <= '7' {
                    let tab = (c as u32 - '1' as u32) as usize;
                    r = self.switch_tab(tab);
                } else if c == '/' {
                    self.active_modal = Some(ModalKind::Search);
                    self.search_query = String::new();
                } else if c == 'e' {
                    self.eq_visible = !self.eq_visible;
                } else if c == 'l' {
                    self.lyrics_visible = !self.lyrics_visible;
                    if self.lyrics_visible {
                        r.push(UiAction::LoadLyrics);
                    }
                } else if c == 'f' {
                    match self.selected_song_row(ctx) {
                        Some(idx) => r.push(UiAction::ToggleStar { tab: self.active_tab, index: idx }),
                        None => {},
                    }
                } else if c == 'R' {
                    r.push(UiAction::StartRadio);
                } else if c == 'P' {
                    if ctx.queue_len > 0 {
                        r.push(UiAction::SaveQueueAsPlaylist);
                    }
                } else if c == 'o' {
                    self.album_sort_index = (self.album_sort_index + 1) % ALBUM_SORT_COUNT;
                    r.push(UiAction::ReloadTab(0));
                } else if c == 'S' {
                    self.active_modal = Some(ModalKind::ServerManager);
                } else if c == '?' || c == 'i' {
                    self.active_modal = Some(ModalKind::Help);
                }
            },
            Key::Right => {
                r.push(UiAction::Seek(if shift { 30 } else { 5 }));
            },
            Key::Left => {
                r.push(UiAction::Seek(if shift { -30 } else { -5 }));
            },
            Key::Delete => {
                r = self.remove_from_queue(ctx);
            },
            Key::Up => {
                if shift {
                    r = self.move_queue_item(ctx, true);
                } else {
                    self.move_selection(ctx, true);
                }
            },
            Key::Down => {
                if shift {
                    r = self.move_queue_item(ctx, false);
                } else {
                    self.move_selection(ctx, false);
                }
            },
            Key::Enter => {
                r.push(UiAction::SelectCurrent);
            },
            Key::Esc | Key::Backspace => {
                r = self.go_back();
            },
            Key::Tab => {
                self.cycle_focus(ctx);
            },
            Key::Other => {},
        }
        r
    }

    /// A key while the search panel is open.
    pub fn search_key(&mut self, key: Key, ctx: UiContext) -> (r: Vec<UiAction>)
        requires
            old(self).wf(),
        ensures
            search_key_effect(*old(self), *final(self), key, ctx, r@),
            final(self).wf(),
    {
        let mut r: Vec<UiAction> = Vec::new();
        match key {
            Key::Esc => {
                self.active_modal = None;
            },
            Key::Char(c) => {
                push_char(&mut self.search_query, c);
                if byte_len(self.search_query.as_str()) >= 2 {
                    r.push(UiAction::Search(self.search_query.clone()));
                }
            },
            Key::Backspace => {
                self.search_query = drop_last_char(&self.search_query);
                if byte_len(self.search_query.as_str()) >= 2 {
                    r.push(UiAction::Search(self.search_query.clone()));
                } else {
                    r.push(UiAction::ClearSearchResults);
                }
            },
            Key::Tab => {
                self.search_tab = (self.search_tab + 1) % 3;
                self.search_selected = Some(0);
            },
            Key::Up => {
                let cur = match self.search_selected {
                    Some(i) => i,
                    None => 0,
                };
                if cur > 0 {
                    self.search_selected = Some(cur - 1);
                }
            },
            Key::Down => {
                let len = if self.search_tab == 0 {
                    ctx.search_songs
                } else if self.search_tab == 1 {
                    ctx.search_albums
                } else if self.search_tab == 2 {
                    ctx.search_artists
                } else {
                    0
                };
                let cur = match self.search_selected {
                    Some(i) => i,
                    None => 0,
                };
                if cur < len && cur + 1 < len {
                    self.search_selected = Some(cur + 1);
                }
            },
            Key::Enter => {
                let index = match self.search_selected {
                    Some(i) => i,
                    None => 0,
                };
                r.push(UiAction::SelectSearchResult { tab: self.search_tab, index });
                self.active_modal = None;
            },
            _ => {},
        }
        r
    }
}


/// A rectangle of the terminal, in cells.
#[derive(Debug, Clone, Copy, PartialEq, Eq, Structural)]
pub struct Area {
    pub x: u16,
    pub y: u16,
    pub width: u16,
    pub height: u16,
}

/// Where the tab bar, browser, queue and now-playing bar were last drawn.
#[derive(Debug, Clone, Copy, PartialEq, Eq, Structural)]
pub struct UiLayout {
    pub tabs: Area,
    pub browser: Area,
    pub queue: Area,
    pub now_playing: Area,
}

/// What the now-playing bar shows that its clickable parts depend on.
#[derive(Debug, Clone, Copy, PartialEq, Eq, Structural)]
pub struct ControlsInfo {
    pub muted: bool,
    pub volume: u32,
    pub repeat: RepeatMode,
    /// A track with a known, positive duration is loaded.
    pub has_duration: bool,
}

/// An area lies within the terminal's coordinates, with room for the tab bar.
pub open spec fn area_fits(a: Area) -> bool {
    a.x + a.width + 80 <= u16::MAX && a.y + a.height + 80 <= u16::MAX
}

/// Every area of the layout fits.
pub open spec fn layout_fits(l: UiLayout) -> bool {
    area_fits(l.tabs) && area_fits(l.browser) && area_fits(l.queue) && area_fits(l.now_playing)
}

/// `row` is one of the area's rows.
pub open spec fn in_rows(a: Area, row: int) -> bool {
    a.y <= row < a.y + a.height
}

/// The cell is inside the area.
pub open spec fn within(a: Area, col: int, row: int) -> bool {
    a.x <= col < a.x + a.width && in_rows(a, row)
}

/// The tab whose columns hold `col`, looking from tab `i` starting at column `x`.
pub open spec fn tab_at(x: int, col: int, i: int) -> Option<usize>
    decreases 7 - i,
{
    if i >= 7 || i < 0 {
        None
    } else if x <= col < x + tab_width(i) {
        Some(i as usize)
    } else {
        tab_at(x + tab_width(i), col, i + 1)
    }
}

/// `a - b`, or 0 when `b` is larger.
pub open spec fn sat_sub(a: int, b: int) -> int {
    if a >= b {
        a - b
    } else {
        0
    }
}

/// The byte length of the volume shown on the now-playing bar.
pub open spec fn volume_text_len(info: ControlsInfo) -> nat {
    if info.muted {
        encode_utf8("\u{266a} MUTED"@).len()
    } else {
        encode_utf8("\u{266a} "@).len() + decimal(info.volume as nat).len() + 1
    }
}

/// The byte length of the repeat indicator: icon, space, label.
pub open spec fn repeat_text_len(m: RepeatMode) -> nat {
    encode_utf8(
        match m {
            RepeatMode::One => "\u{21bb}1"@,
            _ => "\u{21bb}"@,
        },
    ).len() + 1 + encode_utf8(
        match m {
            RepeatMode::Off => "Off"@,
            RepeatMode::All => "All"@,
            RepeatMode::One => "One"@,
        },
    ).len()
}

/// The effect of a click on the controls row of the now-playing bar.
pub open spec fn controls_effect(
    old: UiState,
    new: UiState,
    col: int,
    np: Area,
    ctx: UiContext,
    info: ControlsInfo,
    server_name: Seq<char>,
    r: Seq<UiAction>,
) -> bool {
    let rel = sat_sub(col, np.x as int);
    let vol_end = 19 + volume_text_len(info);
    let repeat_len = repeat_text_len(info.repeat);
    let right_total = repeat_len + 3 + encode_utf8(server_name).len() + 1;
    let right_start = sat_sub(np.width as int, right_total as int);
    if rel <= 3 {
        new == old && r == seq![UiAction::PrevTrack]
    } else if rel <= 5 {
        new == old && r == seq![
            if ctx.player_stopped {
                UiAction::PlayCurrent
            } else {
                UiAction::TogglePause
            },
        ]
    } else if rel <= 8 {
        new == old && r == seq![UiAction::NextTrack]
    } else if rel <= 13 {
        new == old && r == seq![UiAction::ToggleShuffle]
    } else if rel <= 16 {
        new == UiState { eq_visible: !old.eq_visible, ..old } && r.len() == 0
    } else if rel < vol_end {
        new == old && r == seq![UiAction::MuteToggle]
    } else if right_start <= rel < right_start + repeat_len {
        new == old && r == seq![UiAction::CycleRepeat]
    } else if right_start + repeat_len + 3 <= rel < right_start + right_total {
        new == UiState { active_modal: Some(ModalKind::ServerManager), ..old } && r.len() == 0
    } else {
        new == old && r.len() == 0
    }
}

/// The effect of a left click at a cell (`double` when it repeats the last
/// click): nothing while a panel is open; the tab bar switches tabs; a row of
/// the browser or queue is selected (and opened on a double click); the
/// now-playing bar seeks or works its controls.
pub open spec fn click_effect(
    old: UiState,
    new: UiState,
    col: int,
    row: int,
    double: bool,
    layout: UiLayout,
    ctx: UiContext,
    info: ControlsInfo,
    server_name: Seq<char>,
    r: Seq<UiAction>,
) -> bool {
    let opened = if double {
        seq![UiAction::SelectCurrent]
    } else {
        Seq::empty()
    };
    if old.active_modal is Some || old.eq_visible {
        new == old && r.len() == 0
    } else if in_rows(layout.tabs, row) {
        match tab_at(layout.tabs.x as int, col, 0) {
            Some(t) => switched_tab(old, new, t, r),
            None => new == old && r.len() == 0,
        }
    } else if within(layout.browser, col, row) {
        let start = layout.browser.y + 2;
        if row >= start && row - start < ctx.tab_len {
            &&& new == UiState { focus: Focus::Browser, tab_selected: new.tab_selected, ..old }
            &&& new.tab_selected@ == old.tab_selected@.update(
                old.active_tab as int,
                Some((row - start) as usize),
            )
            &&& r == opened
        } else {
            new == UiState { focus: Focus::Browser, ..old } && r.len() == 0
        }
    } else if within(layout.queue, col, row) {
        let start = layout.queue.y + 4;
        if row >= start && row - start < ctx.queue_len {
            &&& new == UiState {
                focus: Focus::Queue,
                queue_selected: Some((row - start) as usize),
                ..old
            }
            &&& r == opened
        } else {
            new == UiState { focus: Focus::Queue, ..old } && r.len() == 0
        }
    } else if in_rows(layout.now_playing, row) {
        let np = layout.now_playing;
        let inner_row = sat_sub(row, np.y + 1);
        if inner_row == 1 && info.has_duration {
            let bar_start = np.x + 8;
            let bar_end = np.x + sat_sub(np.width as int, 8);
            new == old && r == (if bar_start <= col <= bar_end && bar_end > bar_start {
                seq![
                    UiAction::SeekBar {
                        offset: (col - bar_start) as u16,
                        width: (bar_end - bar_start) as u16,
                    },
                ]
            } else {
                Seq::empty()
            })
        } else if inner_row == 2 {
            controls_effect(old, new, col, np, ctx, info, server_name, r)
        } else {
            new == old && r.len() == 0
        }
    } else {
        new == old && r.len() == 0
    }
}

/// The effect of a key: the open panel takes it, else the equalizer panel
/// when shown and the key is one of its own, else the main view.
pub open spec fn key_effect(
    old: UiState,
    new: UiState,
    key: Key,
    shift: bool,
    ctx: UiContext,
    r: Seq<UiAction>,
) -> bool {
    match old.active_modal {
        Some(ModalKind::Search) => search_key_effect(old, new, key, ctx, r),
        Some(ModalKind::Help) => help_key_effect(old, new, key, r),
        Some(ModalKind::ServerManager) => server_key_effect(old, new, key, ctx, r),
        None => if old.eq_visible && eq_handles(key) {
            eq_key_effect(old, new, key, r)
        } else {
            global_key_effect(old, new, key, shift, ctx, r)
        },
    }
}

/// What opening the selected entry means.
#[derive(Debug, Clone, Copy, PartialEq, Eq, Structural)]
pub enum SelectTarget {
    /// Play the queue from this row.
    QueueRow(usize),
    /// Show the songs of the album at this row of the albums tab.
    Album(usize),
    /// Show the albums of the artist at this row of the artists tab.
    Artist(usize),
    /// Play this song list from this row.
    Songs { tab: usize, index: usize },
    /// Show the songs of the playlist at this row.
    Playlist(usize),
    /// Show the songs of the genre at this row.
    Genre(usize),
    Nothing,
}

/// What opening the selected entry of the focused list means.
pub open spec fn target_of(s: UiState, ctx: UiContext) -> SelectTarget {
    match s.focus {
        Focus::Queue => match s.queue_selected {
            Some(i) => SelectTarget::QueueRow(i),
            None => SelectTarget::Nothing,
        },
        Focus::Browser => match s.tab_selected@[s.active_tab as int] {
            Some(i) => if i >= ctx.tab_len {
                SelectTarget::Nothing
            } else if s.active_tab == 0 {
                SelectTarget::Album(i)
            } else if s.active_tab == 1 {
                SelectTarget::Artist(i)
            } else if is_song_tab(s.active_tab) {
                SelectTarget::Songs { tab: s.active_tab, index: i }
            } else if s.active_tab == 3 {
                SelectTarget::Playlist(i)
            } else if s.active_tab == 4 {
                SelectTarget::Genre(i)
            } else {
                SelectTarget::Nothing
            },
            None => SelectTarget::Nothing,
        },
    }
}

/// The play history after a song ended: the song added last, the oldest
/// dropped once more than 100 are kept.
pub open spec fn history_after(h: Seq<Song>, song: Song) -> Seq<Song> {
    if h.len() + 1 > 100 {
        h.push(song).drop_first()
    } else {
        h.push(song)
    }
}

/// Records a song that finished playing.
pub fn record_played(history: &mut Vec<Song>, song: Song)
    ensures
        final(history)@ == history_after(old(history)@, song),
{
    history.push(song);
    if history.len() > 100 {
        history.remove(0);
        assert(final(history)@ =~= old(history)@.push(song).drop_first());
    }
}

/// The position of the first server named `name`.
pub open spec fn server_named(servers: Seq<ServerConfig>, name: Seq<char>) -> Option<int>
    decreases servers.len(),
{
    if servers.len() == 0 {
        None
    } else if servers[0].name@ == name {
        Some(0)
    } else {
        match server_named(servers.drop_first(), name) {
            Some(k) => Some(k + 1),
            None => None,
        }
    }
}

/// The position of the first server named `name`, if any.
pub fn server_index_by_name(servers: &[ServerConfig], name: &str) -> (r: Option<usize>)
    ensures
        match r {
            Some(i) => server_named(servers@, name@) == Some(i as int),
            None => server_named(servers@, name@) is None,
        },
{
    assert(servers@.skip(0) =~= servers@);
    let mut i: usize = 0;
    while i < servers.len()
        invariant
            i <= servers@.len(),
            server_named(servers@, name@) == match server_named(servers@.skip(i as int), name@) {
                Some(k) => Some(k + i),
                None => None::<int>,
            },
        decreases servers@.len() - i,
    {
        assert(servers@.skip(i as int).drop_first() =~= servers@.skip(i + 1));
        assert(servers@.skip(i as int)[0] == servers@[i as int]);
        if str_eq(servers[i].name.as_str(), name) {
            return Some(i);
        }
        i = i + 1;
    }
    None
}

/// The preset after (or before) position `idx` among `len`, wrapping around.
pub fn next_preset_index(idx: usize, len: usize, backward: bool) -> (r: usize)
    requires
        idx < len,
    ensures
        r < len,
        r == (if backward {
            if idx == 0 {
                len - 1
            } else {
                idx - 1
            }
        } else {
            (idx + 1) % (len as int)
        }),
{
    if backward {
        if idx == 0 {
            len - 1
        } else {
            idx - 1
        }
    } else {
        (idx + 1) % len
    }
}

/// Two clicks make a double click when they are quick (as the caller
/// measured), on the same row, and at most two columns apart.
pub fn is_double_click(quick: bool, last_row: u16, last_col: u16, row: u16, col: u16) -> (r: bool)
    ensures
        r == (quick && last_row == row && -2 <= col - last_col <= 2),
{
    quick && last_row == row && (if col >= last_col {
        col - last_col <= 2
    } else {
        last_col - col <= 2
    })
}

impl UiState {
    /// A key while the server manager is open.
    pub fn server_key(&mut self, key: Key, ctx: UiContext) -> (r: Vec<UiAction>)
        requires
            old(self).wf(),
        ensures
            server_key_effect(*old(self), *final(self), key, ctx, r@),
            final(self).wf(),
    {
        let mut r: Vec<UiAction> = Vec::new();
        match key {
            Key::Esc => {
                self.active_modal = None;
            },
            Key::Tab => {
                if self.server_focus_list {
                    self.server_focus_list = false;
                    self.server_active_field = 0;
                } else if self.server_active_field < 3 {
                    self.server_active_field = self.server_active_field + 1;
                } else {
                    self.server_focus_list = true;
                }
            },
            Key::Up => {
                if self.server_focus_list {
                    match self.server_selected {
                        Some(idx) => if idx > 0 {
                            self.server_selected = Some(idx - 1);
                        },
                        None => {},
                    }
                }
            },
            Key::Down => {
                if self.server_focus_list {
                    match self.server_selected {
                        Some(idx) => if idx < ctx.servers_len && idx + 1 < ctx.servers_len {
                            self.server_selected = Some(idx + 1);
                        },
                        None => if ctx.servers_len > 0 {
                            self.server_selected = Some(0);
                        },
                    }
                }
            },
            Key::Enter => {
                if self.server_focus_list {
                    match self.server_selected {
                        Some(idx) => if idx < ctx.servers_len {
                            r.push(UiAction::SwitchServer(idx));
                        },
                        None => {},
                    }
                } else {
                    let mut missing = false;
                    let mut k: usize = 0;
                    while k < 4
                        invariant
                            k <= 4,
                            self.server_form@.len() == 4,
                            missing <==> exists|j: int|
                                0 <= j < k && (#[trigger] self.server_form@[j])@.len() == 0,
                        decreases 4 - k,
                    {
                        if self.server_form[k].as_str().unicode_len() == 0 {
                            missing = true;
                        }
                        k = k + 1;
                    }
                    if missing {
                        self.server_status = owned("All fields are required");
                    } else {
                        r.push(
                            UiAction::AddServer {
                                name: self.server_form[0].clone(),
                                url: self.server_form[1].clone(),
                                username: self.server_form[2].clone(),
                                password: self.server_form[3].clone(),
                            },
                        );
                    }
                }
            },
            Key::Char(c) => {
                if !self.server_focus_list {
                    let f = self.server_active_field;
                    let mut field = self.server_form[f].clone();
                    push_char(&mut field, c);
                    self.server_form.set(f, field);
                }
            },
            Key::Backspace => {
                if !self.server_focus_list {
                    let f = self.server_active_field;
                    let field = drop_last_char(&self.server_form[f]);
                    self.server_form.set(f, field);
                }
            },
            Key::Delete => {
                match self.server_selected {
                    Some(idx) => {
                        r.push(UiAction::RemoveServer(idx));
                        let len = if idx < ctx.servers_len {
                            ctx.servers_len - 1
                        } else {
                            ctx.servers_len
                        };
                        if len == 0 {
                            self.server_selected = None;
                        } else if idx >= len {
                            self.server_selected = Some(len - 1);
                        }
                    },
                    None => {},
                }
            },
            _ => {},
        }
        r
    }

    /// A key, routed to the open panel, the equalizer panel or the main view.
    pub fn handle_key(&mut self, key: Key, shift: bool, ctx: UiContext) -> (r: Vec<UiAction>)
        requires
            old(self).wf(),
        ensures
            key_effect(*old(self), *final(self), key, shift, ctx, r@),
            final(self).wf(),
    {
        match self.active_modal {
            Some(ModalKind::Search) => self.search_key(key, ctx),
            Some(ModalKind::Help) => self.help_key(key),
            Some(ModalKind::ServerManager) => self.server_key(key, ctx),
            None => {
                if self.eq_visible {
                    let (handled, r) = self.eq_key(key);
                    if handled {
                        return r;
                    }
                }
                self.global_key(key, shift, ctx)
            },
        }
    }

    /// The tab under column `col` of the tab bar.
    fn tab_under(x: u16, col: u16) -> (r: Option<usize>)
        requires
            x as int + 80 <= u16::MAX,
        ensures
            r == tab_at(x as int, col as int, 0),
            r matches Some(i) ==> i < TAB_COUNT,
    {
        proof {
            lemma_tab_offsets();
        }
        let mut start: u16 = x;
        let mut i: usize = 0;
        while i < 7
            invariant
                i <= 7,
                x as int + 80 <= u16::MAX,
                start == x + tab_offset(i as int),
                forall|j: int| 0 <= j < 7 ==> tab_offset(j) + tab_width(j) == tab_offset(j + 1),
                forall|j: int| 0 <= j <= 7 ==> tab_offset(j) <= 79,
                tab_at(x as int, col as int, 0) == tab_at(start as int, col as int, i as int),
            decreases 7 - i,
        {
            let w = tab_columns(i);
            if col >= start && col < start + w {
                return Some(i);
            }
            start = start + w;
            i = i + 1;
        }
        None
    }
}

/// The column of tab `i` relative to the tab bar's start.
pub open spec fn tab_offset(i: int) -> nat
    decreases i,
{
    if i <= 0 {
        0
    } else {
        tab_offset(i - 1) + tab_width(i - 1)
    }
}

proof fn lemma_tab_offsets()
    ensures
        forall|j: int| 0 <= j < 7 ==> tab_offset(j) + tab_width(j) == tab_offset(j + 1),
        forall|j: int| 0 <= j <= 7 ==> tab_offset(j) <= 79,
{
    reveal_with_fuel(tab_offset, 8);
    assert(tab_offset(7) == 79);
}


/// Remembering the active tab and its selection for going back; the oldest
/// step is forgotten past 50.
pub open spec fn nav_pushed(old: UiState) -> Seq<(usize, Option<usize>)> {
    let h = old.nav_history@.push((old.active_tab, old.tab_selected@[old.active_tab as int]));
    if h.len() > NAV_HISTORY_CAP {
        h.drop_first()
    } else {
        h
    }
}

impl UiState {
    /// What opening the selected entry of the focused list means.
    pub fn select_target(&self, ctx: UiContext) -> (r: SelectTarget)
        requires
            self.wf(),
        ensures
            r == target_of(*self, ctx),
    {
        match self.focus {
            Focus::Queue => match self.queue_selected {
                Some(i) => SelectTarget::QueueRow(i),
                None => SelectTarget::Nothing,
            },
            Focus::Browser => match self.tab_selected[self.active_tab] {
                Some(i) => if i >= ctx.tab_len {
                    SelectTarget::Nothing
                } else if self.active_tab == 0 {
                    SelectTarget::Album(i)
                } else if self.active_tab == 1 {
                    SelectTarget::Artist(i)
                } else if self.active_tab == 2 || self.active_tab == 5 || self.active_tab == 6 {
                    SelectTarget::Songs { tab: self.active_tab, index: i }
                } else if self.active_tab == 3 {
                    SelectTarget::Playlist(i)
                } else if self.active_tab == 4 {
                    SelectTarget::Genre(i)
                } else {
                    SelectTarget::Nothing
                },
                None => SelectTarget::Nothing,
            },
        }
    }

    /// Shows fetched entries in tab `tab` from its first row; with
    /// `remember`, the view being left is remembered for going back.
    pub fn show_results(&mut self, tab: usize, remember: bool)
        requires
            old(self).wf(),
            tab < TAB_COUNT,
        ensures
            final(self).wf(),
            final(self).active_tab == tab,
            final(self).tab_selected@ == old(self).tab_selected@.update(tab as int, Some(0usize)),
            final(self).nav_history@ == (if remember {
                nav_pushed(*old(self))
            } else {
                old(self).nav_history@
            }),
            *final(self) == (UiState {
                active_tab: tab,
                tab_selected: final(self).tab_selected,
                nav_history: final(self).nav_history,
                ..*old(self)
            }),
    {
        if remember {
            let entry = (self.active_tab, self.tab_selected[self.active_tab]);
            self.nav_history.push(entry);
            if self.nav_history.len() > NAV_HISTORY_CAP {
                self.nav_history.remove(0);
            }
        }
        self.active_tab = tab;
        self.tab_selected.set(tab, Some(0));
    }

    /// A search answered: its first result is selected.
    pub fn search_results_arrived(&mut self)
        ensures
            *final(self) == (UiState { search_selected: Some(0usize), ..*old(self) }),
    {
        self.search_selected = Some(0);
    }

    /// The server `name` was switched to.
    pub fn server_switched(&mut self, name: &str)
        ensures
            final(self).server_status@ == "Switched to '"@ + name@ + "'"@,
            *final(self) == (UiState { server_status: final(self).server_status, ..*old(self) }),
    {
        let mut m = owned("Switched to '");
        m.append(name);
        m.append("'");
        self.server_status = m;
    }

    /// The server `name` answered and was added as the last of
    /// `servers_len` servers: the form is cleared and the new server selected.
    pub fn server_added(&mut self, name: &str, servers_len: usize)
        requires
            old(self).wf(),
        ensures
            final(self).wf(),
            final(self).server_status@ == "Server '"@ + name@ + "' added successfully"@,
            forall|k: int| 0 <= k < 4 ==> (#[trigger] final(self).server_form@[k])@.len() == 0,
            final(self).server_selected == Some(
                (if servers_len > 0 {
                    servers_len - 1
                } else {
                    0
                }) as usize,
            ),
            *final(self) == (UiState {
                server_status: final(self).server_status,
                server_form: final(self).server_form,
                server_selected: final(self).server_selected,
                ..*old(self)
            }),
    {
        let mut form: Vec<String> = Vec::new();
        form.push(String::new());
        form.push(String::new());
        form.push(String::new());
        form.push(String::new());
        self.server_form = form;
        let mut m = owned("Server '");
        m.append(name);
        m.append("' added successfully");
        self.server_status = m;
        self.server_selected = Some(servers_len.saturating_sub(1));
    }

    /// The new server did not answer.
    pub fn server_add_failed(&mut self)
        ensures
            final(self).server_status@ == "Connection failed. Check URL and credentials."@,
            *final(self) == (UiState { server_status: final(self).server_status, ..*old(self) }),
    {
        self.server_status = owned("Connection failed. Check URL and credentials.");
    }

    /// A left click at a cell; `double` when it repeats the last click.
    pub fn handle_click(
        &mut self,
        col: u16,
        row: u16,
        double: bool,
        layout: UiLayout,
        ctx: UiContext,
        info: ControlsInfo,
        server_name: &str,
    ) -> (r: Vec<UiAction>)
        requires
            old(self).wf(),
            layout_fits(layout),
            encode_utf8(server_name@).len() < usize::MAX - 64,
        ensures
            final(self).wf(),
            click_effect(
                *old(self),
                *final(self),
                col as int,
                row as int,
                double,
                layout,
                ctx,
                info,
                server_name@,
                r@,
            ),
    {
        let mut r: Vec<UiAction> = Vec::new();
        if self.active_modal.is_some() || self.eq_visible {
            return r;
        }
        let t = layout.tabs;
        if row >= t.y && row < t.y + t.height {
            match UiState::tab_under(t.x, col) {
                Some(i) => {
                    r = self.switch_tab(i);
                },
                None => {},
            }
            return r;
        }
        let b = layout.browser;
        if col >= b.x && col < b.x + b.width && row >= b.y && row < b.y + b.height {
            self.focus = Focus::Browser;
            let start = b.y + 2;
            if row >= start && ((row - start) as usize) < ctx.tab_len {
                self.tab_selected.set(self.active_tab, Some((row - start) as usize));
                if double {
                    r.push(UiAction::SelectCurrent);
                }
            }
            return r;
        }
        let q = layout.queue;
        if col >= q.x && col < q.x + q.width && row >= q.y && row < q.y + q.height {
            self.focus = Focus::Queue;
            let start = q.y + 4;
            if row >= start && ((row - start) as usize) < ctx.queue_len {
                self.queue_selected = Some((row - start) as usize);
                if double {
                    r.push(UiAction::SelectCurrent);
                }
            }
            return r;
        }
        let np = layout.now_playing;
        if row >= np.y && row < np.y + np.height {
            let inner_row = row.saturating_sub(np.y + 1);
            if inner_row == 1 && info.has_duration {
                let bar_start = np.x + 8;
                let bar_end = np.x + np.width.saturating_sub(8);
                if col >= bar_start && col <= bar_end && bar_end > bar_start {
                    r.push(UiAction::SeekBar { offset: col - bar_start, width: bar_end - bar_start });
                }
            } else if inner_row == 2 {
                r = self.click_controls(col, np, ctx, info, server_name);
            }
        }
        r
    }

    /// A click on the controls row of the now-playing bar.
    fn click_controls(&mut self, col: u16, np: Area, ctx: UiContext, info: ControlsInfo, server_name: &str) -> (r: Vec<UiAction>)
        requires
            area_fits(np),
            encode_utf8(server_name@).len() < usize::MAX - 64,
        ensures
            controls_effect(*old(self), *final(self), col as int, np, ctx, info, server_name@, r@),
    {
        let rel: usize = col.saturating_sub(np.x) as usize;
        proof {
            reveal_strlit("\u{266a} MUTED");
            lemma_utf8_len("\u{266a} MUTED"@);
            reveal_strlit("\u{21bb}");
            reveal_strlit("\u{21bb}1");
            reveal_strlit("Off");
            reveal_strlit("All");
            reveal_strlit("One");
            lemma_utf8_len("\u{21bb}"@);
            lemma_utf8_len("\u{21bb}1"@);
            lemma_utf8_len("Off"@);
            lemma_utf8_len("All"@);
            lemma_utf8_len("One"@);
        }
        let vol_len: usize = if info.muted {
            byte_len("\u{266a} MUTED")
        } else {
            let digits = u64_to_string(info.volume as u64);
            proof {
                reveal_with_fuel(pow10, 11);
                lemma_decimal_len(info.volume as nat, 10);
                reveal_strlit("\u{266a} ");
                lemma_utf8_len("\u{266a} "@);
            }
            byte_len("\u{266a} ") + digits.as_str().unicode_len() + 1
        };
        let vol_end: usize = 19 + vol_len;
        let repeat_len: usize = byte_len(info.repeat.icon()) + 1 + byte_len(info.repeat.label());
        let name_len: usize = byte_len(server_name);
        let mut r: Vec<UiAction> = Vec::new();
        if rel <= 3 {
            r.push(UiAction::PrevTrack);
        } else if rel <= 5 {
            r.push(
                if ctx.player_stopped {
                    UiAction::PlayCurrent
                } else {
                    UiAction::TogglePause
                },
            );
        } else if rel <= 8 {
            r.push(UiAction::NextTrack);
        } else if rel <= 13 {
            r.push(UiAction::ToggleShuffle);
        } else if rel <= 16 {
            self.eq_visible = !self.eq_visible;
        } else if rel < vol_end {
            r.push(UiAction::MuteToggle);
        } else {
            let right_total: usize = repeat_len + 3 + name_len + 1;
            let width = np.width as usize;
            let right_start: usize = if width >= right_total {
                width - right_total
            } else {
                0
            };
            if rel >= right_start && rel < right_start + repeat_len {
                r.push(UiAction::CycleRepeat);
            } else if rel >= right_start + repeat_len + 3 && rel < right_start + right_total {
                self.active_modal = Some(ModalKind::ServerManager);
            }
        }
        r
    }
}

/// 10 to the power `k`.
pub open spec fn pow10(k: nat) -> nat
    decreases k,
{
    if k == 0 {
        1
    } else {
        10 * pow10((k - 1) as nat)
    }
}

/// A number below 10^k has at most k digits.
proof fn lemma_decimal_len(n: nat, k: nat)
    requires
        k >= 1,
        n < pow10(k),
    ensures
        decimal(n).len() <= k,
    decreases k,
{
    if n >= 10 {
        assert(pow10(k) == 10 * pow10((k - 1) as nat));
        assert(n / 10 < pow10((k - 1) as nat));
        if k == 1 {
            assert(false);
        } else {
            lemma_decimal_len(n / 10, (k - 1) as nat);
        }
    }
}

/// UTF-8 takes at most four bytes per character.
proof fn lemma_utf8_len(s: Seq<char>)
    ensures
        encode_utf8(s).len() <= 4 * s.len(),
    decreases s.len(),
{
    if s.len() > 0 {
        lemma_utf8_len(s.drop_first());
    }
}


/// On the main view (no panel open, equalizer hidden), the playback keys
/// answer exactly their action and change nothing in the interface: `n` next
/// track, `p` previous track, `s` stop, space play (when stopped) or pause,
/// `m` mute, `z` shuffle, `r` repeat, `c` clear the queue, `+`/`-` volume by
/// 5, `R` artist radio, and the arrows seek by 5 s (30 s with shift).
pub proof fn lemma_main_view_playback_keys(
    old: UiState,
    new: UiState,
    key: Key,
    shift: bool,
    ctx: UiContext,
    r: Seq<UiAction>,
)
    requires
        old.active_modal is None,
        !old.eq_visible,
        key_effect(old, new, key, shift, ctx, r),
    ensures
        key == Key::Char('n') ==> new == old && r == seq![UiAction::NextTrack],
        key == Key::Char('p') ==> new == old && r == seq![UiAction::PrevTrack],
        key == Key::Char('s') ==> new == old && r == seq![UiAction::Stop],
        key == Key::Char(' ') && ctx.player_stopped ==> new == old && r == seq![UiAction::PlayCurrent],
        key == Key::Char(' ') && !ctx.player_stopped ==> new == old && r == seq![UiAction::TogglePause],
        key == Key::Char('m') ==> new == old && r == seq![UiAction::MuteToggle],
        key == Key::Char('z') ==> new == old && r == seq![UiAction::ToggleShuffle],
        key == Key::Char('r') ==> new == old && r == seq![UiAction::CycleRepeat],
        key == Key::Char('c') ==> new == old && r == seq![UiAction::ClearQueue],
        key == Key::Char('+') ==> new == old && r == seq![UiAction::VolumeUp(5)],
        key == Key::Char('-') ==> new == old && r == seq![UiAction::VolumeDown(5)],
        key == Key::Char('R') ==> new == old && r == seq![UiAction::StartRadio],
        key == Key::Right ==> new == old && r == seq![UiAction::Seek(if shift { 30i32 } else { 5i32 })],
        key == Key::Left ==> new == old && r == seq![UiAction::Seek(if shift { -30i32 } else { -5i32 })],
{
}

/// With the equalizer shown (and no panel open), the arrows choose the band
/// (staying within the 18 bands) or step its gain, `r` resets, `p`/`P` load
/// the next/previous preset, and Esc or `e` hide the equalizer.
pub proof fn lemma_equalizer_view_keys(
    old: UiState,
    new: UiState,
    key: Key,
    shift: bool,
    ctx: UiContext,
    r: Seq<UiAction>,
)
    requires
        old.active_modal is None,
        old.eq_visible,
        old.eq_selected_band < 18,
        key_effect(old, new, key, shift, ctx, r),
    ensures
        key == Key::Left ==> new.eq_selected_band == (if old.eq_selected_band > 0 {
            old.eq_selected_band - 1
        } else {
            0
        }) && r.len() == 0,
        key == Key::Right ==> new.eq_selected_band == (if old.eq_selected_band < 17 {
            old.eq_selected_band + 1
        } else {
            17
        }) && r.len() == 0,
        key == Key::Up ==> new == old && r == seq![
            UiAction::EqBandStep { band: old.eq_selected_band, up: true },
        ],
        key == Key::Down ==> new == old && r == seq![
            UiAction::EqBandStep { band: old.eq_selected_band, up: false },
        ],
        key == Key::Char('r') ==> new == old && r == seq![UiAction::EqReset],
        key == Key::Char('p') ==> new == old && r == seq![UiAction::EqCyclePreset { backward: false }],
        key == Key::Char('P') ==> new == old && r == seq![UiAction::EqCyclePreset { backward: true }],
        key == Key::Esc || key == Key::Char('e') ==> !new.eq_visible && r.len() == 0,
{
}

/// In the search panel, typing a character appends it to the query and
/// deleting one drops the last; a query of at least two bytes is searched
/// for at once, and deleting down to a shorter query clears the results.
pub proof fn lemma_search_typing(
    old: UiState,
    new: UiState,
    key: Key,
    shift: bool,
    ctx: UiContext,
    r: Seq<UiAction>,
)
    requires
        old.active_modal == Some(ModalKind::Search),
        key_effect(old, new, key, shift, ctx, r),
    ensures
        key matches Key::Char(c) ==> new.search_query@ == old.search_query@.push(c),
        key == Key::Backspace && old.search_query@.len() > 0 ==> new.search_query@
            == old.search_query@.drop_last(),
        key == Key::Backspace && old.search_query@.len() == 0 ==> new.search_query@.len() == 0,
        (key is Char || key == Key::Backspace) ==> new.active_modal == old.active_modal,
        (key is Char || key == Key::Backspace) && encode_utf8(new.search_query@).len() >= 2 ==> {
            &&& r.len() == 1
            &&& r[0] matches UiAction::Search(t) && t@ == new.search_query@
        },
        key == Key::Backspace && encode_utf8(new.search_query@).len() < 2 ==> r == seq![
            UiAction::ClearSearchResults,
        ],
        key is Char && encode_utf8(new.search_query@).len() < 2 ==> r.len() == 0,
{
}

/// Going back after opening entries into a tab (with the view remembered)
/// returns to the tab and selection that were left, and fetches that tab.
pub proof fn lemma_back_after_open(
    s: UiState,
    mid: UiState,
    back: UiState,
    r: Seq<UiAction>,
)
    requires
        s.wf(),
        mid.wf(),
        mid.nav_history@ == nav_pushed(s),
        went_back(mid, back, r),
    ensures
        back.active_tab == s.active_tab,
        back.tab_selected@[s.active_tab as int] == s.tab_selected@[s.active_tab as int],
        r == seq![UiAction::ReloadTab(s.active_tab)],
{
}

} // verus!
