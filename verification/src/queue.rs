//! The play queue: the list of songs to play, the position of the song that
//! plays, shuffle with a history of visited positions, and repeat modes.

use rand::seq::SliceRandom;
use rand::Rng;
use vstd::prelude::*;

use crate::subsonic::models::{copy_songs, Song};
use crate::text::str_eq;

verus! {

/// How the queue continues past its last song.
#[derive(Debug, Clone, Copy, PartialEq, Eq, Structural)]
pub enum RepeatMode {
    Off,
    All,
    One,
}

/// The mode that follows `m` in the cycle Off, All, One.
pub open spec fn next_mode(m: RepeatMode) -> RepeatMode {
    match m {
        RepeatMode::Off => RepeatMode::All,
        RepeatMode::All => RepeatMode::One,
        RepeatMode::One => RepeatMode::Off,
    }
}

/// The name a mode is stored under in the configuration file.
pub open spec fn config_name(m: RepeatMode) -> Seq<char> {
    match m {
        RepeatMode::Off => "off"@,
        RepeatMode::All => "all"@,
        RepeatMode::One => "one"@,
    }
}

/// The mode a configuration value stands for: "all" and "one" name their
/// modes, anything else means Off.
pub open spec fn mode_from_config(s: Seq<char>) -> RepeatMode {
    if s == "all"@ {
        RepeatMode::All
    } else if s == "one"@ {
        RepeatMode::One
    } else {
        RepeatMode::Off
    }
}

impl RepeatMode {
    pub fn cycle(self) -> (r: Self)
        ensures
            r == next_mode(self),
    {
        match self {
            RepeatMode::Off => RepeatMode::All,
            RepeatMode::All => RepeatMode::One,
            RepeatMode::One => RepeatMode::Off,
        }
    }

    pub fn label(self) -> (r: &'static str)
        ensures
            r@ == match self {
                RepeatMode::Off => "Off"@,
                RepeatMode::All => "All"@,
                RepeatMode::One => "One"@,
            },
    {
        match self {
            RepeatMode::Off => "Off",
            RepeatMode::All => "All",
            RepeatMode::One => "One",
        }
    }

    pub fn icon(self) -> (r: &'static str)
        ensures
            r@ == match self {
                RepeatMode::Off => "\u{21bb}"@,
                RepeatMode::All => "\u{21bb}"@,
                RepeatMode::One => "\u{21bb}1"@,
            },
    {
        match self {
            RepeatMode::Off => "\u{21bb}",
            RepeatMode::All => "\u{21bb}",
            RepeatMode::One => "\u{21bb}1",
        }
    }

    pub fn as_str(self) -> (r: &'static str)
        ensures
            r@ == config_name(self),
    {
        match self {
            RepeatMode::Off => "off",
            RepeatMode::All => "all",
            RepeatMode::One => "one",
        }
    }

    pub fn from_config_str(s: &str) -> (r: Self)
        ensures
            r == mode_from_config(s@),
    {
        if str_eq(s, "all") {
            RepeatMode::All
        } else if str_eq(s, "one") {
            RepeatMode::One
        } else {
            RepeatMode::Off
        }
    }
}

/// Cycling the repeat mode three times gives back the mode it started from.
pub proof fn lemma_repeat_cycle_returns(m: RepeatMode)
    ensures
        next_mode(next_mode(next_mode(m))) == m,
{
}

/// Reading back the configuration name of a mode gives the mode.
pub proof fn lemma_repeat_config_roundtrip(m: RepeatMode)
    ensures
        mode_from_config(config_name(m)) == m,
{
    reveal_strlit("off");
    reveal_strlit("all");
    reveal_strlit("one");
    assert("off"@[0] != "all"@[0]);
    assert("off"@[1] != "one"@[1]);
    assert("all"@[0] != "one"@[0]);
}

/// The most positions the shuffle history keeps.
pub const HISTORY_CAP: usize = 200;

/// The ids of a list of songs, in order.
pub open spec fn song_ids(s: Seq<Song>) -> Seq<Seq<char>> {
    s.map_values(|x: Song| x.id@)
}

/// The song at position `i`, if `i` is a position of `s`.
pub open spec fn song_at(s: Seq<Song>, i: int) -> Option<Song> {
    if 0 <= i < s.len() {
        Some(s[i])
    } else {
        None
    }
}

/// The song a reference points to.
pub open spec fn as_song(r: Option<&Song>) -> Option<Song> {
    match r {
        Some(s) => Some(*s),
        None => None,
    }
}

/// The first position of `s` that holds a song with the given id.
pub open spec fn position_of_id(s: Seq<Song>, id: Seq<char>) -> Option<int>
    decreases s.len(),
{
    if s.len() == 0 {
        None
    } else if s[0].id@ == id {
        Some(0)
    } else {
        match position_of_id(s.drop_first(), id) {
            Some(p) => Some(p + 1),
            None => None,
        }
    }
}

/// The sum of the durations of the songs, in seconds.
pub open spec fn total_seconds(s: Seq<Song>) -> nat
    decreases s.len(),
{
    if s.len() == 0 {
        0
    } else {
        total_seconds(s.drop_last()) + s.last().duration as nat
    }
}

/// The history kept after removing the song at position `removed`: entries
/// that named it are dropped, entries past it move down by one.
pub open spec fn history_after_removal(h: Seq<i32>, removed: int) -> Seq<i32>
    decreases h.len(),
{
    if h.len() == 0 {
        Seq::empty()
    } else {
        let rest = history_after_removal(h.drop_last(), removed);
        let x = h.last();
        if x == removed {
            rest
        } else if x > removed {
            rest.push((x - 1) as i32)
        } else {
            rest.push(x)
        }
    }
}

/// The history after a position was appended to it: the newest entries, at most `HISTORY_CAP`.
pub open spec fn capped(h: Seq<i32>) -> Seq<i32> {
    if h.len() > HISTORY_CAP {
        h.skip(h.len() - HISTORY_CAP)
    } else {
        h
    }
}

/// `shuffled` is `songs` in some order, with the song at `index` (when
/// `index` is a position of `songs`) moved to the front.
pub open spec fn shuffled_from(songs: Seq<Song>, index: int, shuffled: Seq<Song>) -> bool {
    if 0 <= index < songs.len() {
        &&& shuffled.len() == songs.len()
        &&& shuffled[0] == songs[index]
        &&& shuffled.drop_first().to_multiset() == songs.remove(index).to_multiset()
    } else {
        shuffled.to_multiset() == songs.to_multiset()
    }
}

/// Whether a position below `len` other than `except` exists.
pub open spec fn other_position_exists(len: int, except: int) -> bool {
    len >= 2 || (len == 1 && except != 0)
}

/// The position of the current song after `move_item(from, to)`.
pub open spec fn index_after_move(index: int, from: int, to: int) -> int {
    if from == index {
        to
    } else if from < index && to >= index {
        index - 1
    } else if to <= index && from > index {
        index + 1
    } else {
        index
    }
}

/// The position of the current song after removing position `removed` from
/// a queue that is left with `len` songs.
pub open spec fn index_after_removal(index: int, removed: int, len: int) -> int {
    if removed < index {
        index - 1
    } else if removed == index {
        if len == 0 {
            -1
        } else if index >= len {
            len - 1
        } else {
            index
        }
    } else {
        index
    }
}

/// The play queue.
pub struct QueueManager {
    original_queue: Vec<Song>,
    queue: Vec<Song>,
    current_index: i32,
    shuffle: bool,
    repeat: RepeatMode,
    history: Vec<i32>,
}

impl QueueManager {
    /// The songs in play order.
    pub closed spec fn songs(&self) -> Seq<Song> {
        self.queue@
    }

    /// The songs in the order they were added, which shuffling leaves alone.
    pub closed spec fn original(&self) -> Seq<Song> {
        self.original_queue@
    }

    /// The position of the current song, -1 when there is none.
    pub closed spec fn index(&self) -> int {
        self.current_index as int
    }

    pub closed spec fn shuffled(&self) -> bool {
        self.shuffle
    }

    pub closed spec fn repeat(&self) -> RepeatMode {
        self.repeat
    }

    /// The positions visited under shuffle, most recent last.
    pub closed spec fn visited(&self) -> Seq<i32> {
        self.history@
    }

    /// The queue's invariant: the play order holds the same songs (by id) as
    /// the original order, positions fit an `i32`, and the history is capped.
    pub closed spec fn wf(&self) -> bool {
        &&& self.original_queue@.len() == self.queue@.len()
        &&& song_ids(self.queue@).to_multiset() == song_ids(self.original_queue@).to_multiset()
        &&& self.queue@.len() <= i32::MAX
        &&& self.history@.len() <= HISTORY_CAP
    }

    /// The song that plays, if the position names one.
    pub open spec fn current(&self) -> Option<Song> {
        song_at(self.songs(), self.index())
    }

    /// Whether some position other than the current one exists.
    pub open spec fn has_other(&self) -> bool {
        other_position_exists(self.songs().len() as int, self.index())
    }

    /// `new` is `old` with only the position and the history changed.
    pub open spec fn same_lists(old: QueueManager, new: QueueManager) -> bool {
        &&& new.songs() == old.songs()
        &&& new.original() == old.original()
        &&& new.shuffled() == old.shuffled()
        &&& new.repeat() == old.repeat()
    }

    /// `new` is `old` unchanged.
    pub open spec fn unchanged(old: QueueManager, new: QueueManager) -> bool {
        &&& Self::same_lists(old, new)
        &&& new.index() == old.index()
        &&& new.visited() == old.visited()
    }

    /// The effect of advancing to the next song: `r` is what `next` returns.
    pub open spec fn advanced(old: QueueManager, new: QueueManager, r: Option<Song>) -> bool {
        let len = old.songs().len();
        if len == 0 {
            Self::unchanged(old, new) && r is None
        } else if old.repeat() == RepeatMode::One {
            Self::unchanged(old, new) && r == old.current()
        } else if old.shuffled() {
            &&& Self::same_lists(old, new)
            &&& new.visited() == capped(old.visited().push(old.index() as i32))
            &&& if old.has_other() {
                0 <= new.index() < len && new.index() != old.index() && r == new.current()
            } else if old.repeat() == RepeatMode::All {
                0 <= new.index() < len && r == new.current()
            } else {
                new.index() == old.index() && r is None
            }
        } else {
            &&& Self::same_lists(old, new)
            &&& new.visited() == old.visited()
            &&& if 0 <= old.index() < len - 1 {
                new.index() == old.index() + 1 && r == new.current()
            } else if old.repeat() == RepeatMode::All {
                new.index() == 0 && r == new.current()
            } else {
                new.index() == old.index() && r is None
            }
        }
    }

    /// The effect of going back to the previous song: `r` is what `previous` returns.
    pub open spec fn retreated(old: QueueManager, new: QueueManager, r: Option<Song>) -> bool {
        let len = old.songs().len();
        if len == 0 {
            Self::unchanged(old, new) && r is None
        } else if old.shuffled() && old.visited().len() > 0 {
            &&& Self::same_lists(old, new)
            &&& new.index() == old.visited().last()
            &&& new.visited() == old.visited().drop_last()
            &&& r == new.current()
        } else if old.index() > 0 {
            &&& Self::same_lists(old, new)
            &&& new.index() == old.index() - 1
            &&& new.visited() == old.visited()
            &&& r == new.current()
        } else if old.repeat() == RepeatMode::All {
            &&& Self::same_lists(old, new)
            &&& new.index() == len - 1
            &&& new.visited() == old.visited()
            &&& r == new.current()
        } else {
            Self::unchanged(old, new) && r is None
        }
    }

    /// The effect of turning shuffle on, on the play order, position and history.
    pub open spec fn shuffle_applied(old: QueueManager, new: QueueManager) -> bool {
        if old.songs().len() <= 1 {
            &&& new.songs() == old.songs()
            &&& new.index() == old.index()
            &&& new.visited() == old.visited()
        } else {
            &&& shuffled_from(old.songs(), old.index(), new.songs())
            &&& new.index() == 0
            &&& new.visited().len() == 0
        }
    }

    /// The effect of `jump_to(index)` on the position and history.
    pub open spec fn jumped(old: QueueManager, new: QueueManager, index: int) -> bool {
        if index >= old.songs().len() {
            Self::unchanged(old, new)
        } else {
            &&& Self::same_lists(old, new)
            &&& new.index() == index
            &&& new.visited() == if old.shuffled() {
                Seq::empty()
            } else {
                old.visited()
            }
        }
    }

    /// `new` is `old` after one `next`, `previous` or `jump_to`.
    pub open spec fn moved(old: QueueManager, new: QueueManager) -> bool {
        ||| exists|r: Option<Song>| #[trigger] QueueManager::advanced(old, new, r)
        ||| exists|r: Option<Song>| #[trigger] QueueManager::retreated(old, new, r)
        ||| exists|i: int| 0 <= i && #[trigger] QueueManager::jumped(old, new, i)
    }

    /// The effect of turning shuffle off: the original order comes back and
    /// the position follows the current song by its id.
    pub open spec fn order_restored(old: QueueManager, new: QueueManager) -> bool {
        &&& new.songs() == old.original()
        &&& new.visited().len() == 0
        &&& new.index() == match old.current() {
            Some(c) => match position_of_id(old.original(), c.id@) {
                Some(p) => p,
                None => 0,
            },
            None => old.index(),
        }
    }

    pub fn new() -> (r: Self)
        ensures
            r.wf(),
            r.songs().len() == 0,
            r.original().len() == 0,
            r.index() == -1,
            !r.shuffled(),
            r.repeat() == RepeatMode::Off,
            r.visited().len() == 0,
    {
        let r = QueueManager {
            original_queue: Vec::new(),
            queue: Vec::new(),
            current_index: -1,
            shuffle: false,
            repeat: RepeatMode::Off,
            history: Vec::new(),
        };
        proof {
            assert(song_ids(r.queue@) =~= song_ids(r.original_queue@));
        }
        r
    }

    pub fn queue(&self) -> (r: &[Song])
        ensures
            r@ == self.songs(),
    {
        self.queue.as_slice()
    }

    pub fn current_index(&self) -> (r: i32)
        ensures
            r == self.index(),
    {
        self.current_index
    }

    pub fn current_song(&self) -> (r: Option<&Song>)
        ensures
            as_song(r) == self.current(),
    {
        if self.current_index >= 0 && (self.current_index as usize) < self.queue.len() {
            Some(&self.queue[self.current_index as usize])
        } else {
            None
        }
    }

    pub fn is_empty(&self) -> (r: bool)
        ensures
            r == (self.songs().len() == 0),
    {
        self.queue.is_empty()
    }

    pub fn length(&self) -> (r: usize)
        ensures
            r == self.songs().len(),
    {
        self.queue.len()
    }

    pub fn shuffle_enabled(&self) -> (r: bool)
        ensures
            r == self.shuffled(),
    {
        self.shuffle
    }

    pub fn repeat_mode(&self) -> (r: RepeatMode)
        ensures
            r == self.repeat(),
    {
        self.repeat
    }

    /// Whether `next` would move on: under a repeat mode whenever the queue
    /// holds a song, otherwise when a song follows the current one.
    pub fn has_next(&self) -> (r: bool)
        requires
            self.wf(),
        ensures
            r == if self.repeat() != RepeatMode::Off {
                self.songs().len() > 0
            } else {
                0 <= self.index() < self.songs().len() - 1
            },
    {
        if self.repeat == RepeatMode::All || self.repeat == RepeatMode::One {
            return !self.queue.is_empty();
        }
        let len = self.queue.len();
        if len == 0 {
            return false;
        }
        self.current_index >= 0 && (self.current_index as usize) < len - 1
    }

    /// Whether `previous` would move back: under shuffle when a position was
    /// visited before, otherwise when the current position is past the first.
    pub fn has_prev(&self) -> (r: bool)
        ensures
            r == if self.shuffled() {
                self.visited().len() > 0
            } else {
                self.index() > 0
            },
    {
        if self.shuffle {
            return !self.history.is_empty();
        }
        self.current_index > 0
    }

    pub fn set_queue(&mut self, songs: Vec<Song>, start_index: usize)
        requires
            old(self).wf(),
            songs@.len() <= i32::MAX,
        ensures
            final(self).wf(),
            final(self).original() == songs@,
            final(self).shuffled() == old(self).shuffled(),
            final(self).repeat() == old(self).repeat(),
            !old(self).shuffled() ==> {
                &&& final(self).songs() == songs@
                &&& final(self).index() == start_index as i32
                &&& final(self).visited().len() == 0
            },
            old(self).shuffled() ==> {
                &&& songs@.len() <= 1 ==> final(self).songs() == songs@ && final(self).index()
                    == start_index as i32
                &&& songs@.len() > 1 ==> shuffled_from(
                    songs@,
                    start_index as i32 as int,
                    final(self).songs(),
                ) && final(self).index() == 0
                &&& final(self).visited().len() == 0
            },
    {
        self.original_queue = copy_songs(&songs);
        self.queue = songs;
        self.current_index = start_index as i32;
        self.history.clear();
        proof {
            assert(song_ids(self.queue@) =~= song_ids(self.original_queue@));
        }
        if self.shuffle {
            self.apply_shuffle();
        }
    }

    pub fn add(&mut self, song: Song)
        requires
            old(self).wf(),
            old(self).songs().len() < i32::MAX,
        ensures
            final(self).wf(),
            final(self).songs() == old(self).songs().push(song),
            final(self).original() == old(self).original().push(song),
            final(self).index() == old(self).index(),
            old(self).current() is Some ==> final(self).current() == old(self).current(),
            final(self).visited() == old(self).visited(),
            final(self).shuffled() == old(self).shuffled(),
            final(self).repeat() == old(self).repeat(),
    {
        let ghost q0 = self.queue@;
        let ghost o0 = self.original_queue@;
        self.original_queue.push(song.duplicate());
        self.queue.push(song);
        proof {
            assert(song_ids(q0.push(song)) =~= song_ids(q0).push(song.id@));
            assert(song_ids(o0.push(song)) =~= song_ids(o0).push(song.id@));
            vstd::seq_lib::to_multiset_build(song_ids(q0), song.id@);
            vstd::seq_lib::to_multiset_build(song_ids(o0), song.id@);
        }
    }

    pub fn add_songs(&mut self, songs: Vec<Song>)
        requires
            old(self).wf(),
            old(self).songs().len() + songs@.len() <= i32::MAX,
        ensures
            final(self).wf(),
            final(self).songs() == old(self).songs() + songs@,
            final(self).original() == old(self).original() + songs@,
            final(self).index() == old(self).index(),
            old(self).current() is Some ==> final(self).current() == old(self).current(),
            final(self).visited() == old(self).visited(),
            final(self).shuffled() == old(self).shuffled(),
            final(self).repeat() == old(self).repeat(),
    {
        let ghost q0 = self.queue@;
        let ghost o0 = self.original_queue@;
        let mut i: usize = 0;
        while i < songs.len()
            invariant
                self.wf(),
                i <= songs@.len(),
                q0.len() + songs@.len() <= i32::MAX,
                self.queue@ == q0 + songs@.take(i as int),
                self.original_queue@ == o0 + songs@.take(i as int),
                self.current_index == old(self).current_index,
                self.history@ == old(self).history@,
                self.shuffle == old(self).shuffle,
                self.repeat == old(self).repeat,
            decreases songs@.len() - i,
        {
            let ghost q1 = self.queue@;
            let ghost o1 = self.original_queue@;
            let s = &songs[i];
            self.original_queue.push(s.duplicate());
            self.queue.push(s.duplicate());
            proof {
                assert(songs@.take(i as int).push(songs@[i as int]) =~= songs@.take(i + 1));
                assert(song_ids(q1.push(*s)) =~= song_ids(q1).push(s.id@));
                assert(song_ids(o1.push(*s)) =~= song_ids(o1).push(s.id@));
                vstd::seq_lib::to_multiset_build(song_ids(q1), s.id@);
                vstd::seq_lib::to_multiset_build(song_ids(o1), s.id@);
            }
            i = i + 1;
        }
        assert(songs@.take(songs@.len() as int) =~= songs@);
    }

    /// Inserts a song right after the current one, in both orders.
    pub fn add_next(&mut self, song: Song)
        requires
            old(self).wf(),
            old(self).songs().len() < i32::MAX,
            -1 <= old(self).index(),
            old(self).index() + 1 <= old(self).songs().len(),
        ensures
            final(self).wf(),
            final(self).songs() == old(self).songs().insert(old(self).index() + 1, song),
            final(self).original() == old(self).original().insert(old(self).index() + 1, song),
            final(self).index() == old(self).index(),
            final(self).current() == old(self).current(),
            final(self).songs()[old(self).index() + 1] == song,
            final(self).visited() == old(self).visited(),
            final(self).shuffled() == old(self).shuffled(),
            final(self).repeat() == old(self).repeat(),
    {
        let ghost q0 = self.queue@;
        let ghost o0 = self.original_queue@;
        let insert_pos = (self.current_index + 1) as usize;
        self.original_queue.insert(insert_pos, song.duplicate());
        self.queue.insert(insert_pos, song);
        proof {
            let p = insert_pos as int;
            assert(song_ids(q0.insert(p, song)) =~= song_ids(q0).insert(p, song.id@));
            assert(song_ids(o0.insert(p, song)) =~= song_ids(o0).insert(p, song.id@));
            vstd::seq_lib::to_multiset_insert(song_ids(q0), p, song.id@);
            vstd::seq_lib::to_multiset_insert(song_ids(o0), p, song.id@);
        }
    }

    /// Removes the song at `index` from the play order, and the first song
    /// with the same id from the original order. Out-of-range positions are ignored.
    pub fn remove(&mut self, index: usize)
        requires
            old(self).wf(),
        ensures
            final(self).wf(),
            final(self).shuffled() == old(self).shuffled(),
            final(self).repeat() == old(self).repeat(),
            index >= old(self).songs().len() ==> QueueManager::unchanged(*old(self), *final(self)),
            index < old(self).songs().len() ==> {
                let removed = old(self).songs()[index as int];
                &&& final(self).songs() == old(self).songs().remove(index as int)
                &&& position_of_id(old(self).original(), removed.id@) is Some
                &&& final(self).original() == old(self).original().remove(
                    position_of_id(old(self).original(), removed.id@)->0,
                )
                &&& final(self).visited() == history_after_removal(
                    old(self).visited(),
                    index as int,
                )
                &&& final(self).index() == index_after_removal(
                    old(self).index(),
                    index as int,
                    final(self).songs().len() as int,
                )
                &&& old(self).current() is Some && index != old(self).index() ==> final(self).current() == old(self).current()
                &&& index == old(self).index() && index < final(self).songs().len() ==> final(self).current() == Some(old(self).songs()[index + 1])
            },
    {
        if index >= self.queue.len() {
            return;
        }
        let ghost q0 = self.queue@;
        let ghost o0 = self.original_queue@;
        let ghost h0 = self.history@;
        let song_id = self.queue[index].id.clone();
        self.queue.remove(index);
        proof {
            lemma_id_in_original(q0, o0, index as int);
        }
        let orig_pos = find_id(&self.original_queue, &song_id);
        match orig_pos {
            Some(p) => {
                self.original_queue.remove(p);
                proof {
                    assert(song_ids(q0.remove(index as int)) =~= song_ids(q0).remove(index as int));
                    assert(song_ids(o0.remove(p as int)) =~= song_ids(o0).remove(p as int));
                    vstd::seq_lib::to_multiset_remove(song_ids(q0), index as int);
                    vstd::seq_lib::to_multiset_remove(song_ids(o0), p as int);
                }
            },
            None => {},
        }
        let removed = index as i32;
        self.history = adjust_history(&self.history, removed);
        proof {
            lemma_history_after_removal_len(h0, index as int);
        }
        if removed < self.current_index {
            self.current_index = self.current_index - 1;
        } else if removed == self.current_index {
            if self.queue.len() == 0 {
                self.current_index = -1;
            } else if self.current_index as usize >= self.queue.len() {
                self.current_index = self.queue.len() as i32 - 1;
            }
        }
        proof {
            if old(self).current() is Some {
                lemma_remove_current_song(*old(self), *self, index as int);
            }
        }
    }

    pub fn clear(&mut self)
        requires
            old(self).wf(),
        ensures
            final(self).wf(),
            final(self).songs().len() == 0,
            final(self).original().len() == 0,
            final(self).index() == -1,
            final(self).visited().len() == 0,
            final(self).shuffled() == old(self).shuffled(),
            final(self).repeat() == old(self).repeat(),
    {
        self.queue.clear();
        self.original_queue.clear();
        self.current_index = -1;
        self.history.clear();
        proof {
            assert(song_ids(self.queue@) =~= song_ids(self.original_queue@));
        }
    }

    /// Moves the song at `from_idx` to `to_idx` in the play order; the
    /// position of the current song follows it.
    pub fn move_item(&mut self, from_idx: usize, to_idx: usize)
        requires
            old(self).wf(),
        ensures
            final(self).wf(),
            from_idx >= old(self).songs().len() || to_idx >= old(self).songs().len()
                ==> QueueManager::unchanged(*old(self), *final(self)),
            from_idx < old(self).songs().len() && to_idx < old(self).songs().len() ==> {
                &&& final(self).songs() == old(self).songs().remove(from_idx as int).insert(
                    to_idx as int,
                    old(self).songs()[from_idx as int],
                )
                &&& final(self).original() == old(self).original()
                &&& final(self).index() == index_after_move(
                    old(self).index(),
                    from_idx as int,
                    to_idx as int,
                )
                &&& final(self).visited() == old(self).visited()
                &&& final(self).shuffled() == old(self).shuffled()
                &&& final(self).repeat() == old(self).repeat()
                &&& final(self).current() == old(self).current()
            },
    {
        if from_idx >= self.queue.len() || to_idx >= self.queue.len() {
            return;
        }
        let ghost q0 = self.queue@;
        let song = self.queue.remove(from_idx);
        self.queue.insert(to_idx, song);
        proof {
            let ids0 = song_ids(q0);
            let x = q0[from_idx as int];
            assert(song_ids(q0.remove(from_idx as int)) =~= ids0.remove(from_idx as int));
            assert(song_ids(q0.remove(from_idx as int).insert(to_idx as int, x)) =~= ids0.remove(
                from_idx as int,
            ).insert(to_idx as int, x.id@));
            vstd::seq_lib::to_multiset_remove(ids0, from_idx as int);
            vstd::seq_lib::to_multiset_insert(ids0.remove(from_idx as int), to_idx as int, x.id@);
            assert(ids0.to_multiset().remove(x.id@).insert(x.id@) =~= ids0.to_multiset()) by {
                broadcast use vstd::multiset::group_multiset_axioms;
                vstd::seq_lib::to_multiset_contains(ids0, x.id@);
                assert(ids0[from_idx as int] == x.id@);
            }
        }
        let from_i = from_idx as i32;
        let to_i = to_idx as i32;
        let cur = self.current_index;
        if from_i == cur {
            self.current_index = to_i;
        } else if from_i < cur && to_i >= cur {
            self.current_index = self.current_index - 1;
        } else if to_i <= cur && from_i > cur {
            self.current_index = self.current_index + 1;
        }
        proof {
            if old(self).current() is Some {
                lemma_move_keeps_current_song(*old(self), *self, from_idx as int, to_idx as int);
            }
        }
    }

    /// Advances to the next song (see `advanced`). Under shuffle the next
    /// position is drawn at random among the others, and the position left is
    /// remembered for `previous`.
    #[allow(clippy::should_implement_trait)]
    pub fn next(&mut self) -> (r: Option<&Song>)
        requires
            old(self).wf(),
        ensures
            final(self).wf(),
            QueueManager::advanced(*old(self), *final(self), as_song(r)),
    {
        if self.queue.is_empty() {
            return None;
        }
        if self.repeat == RepeatMode::One {
            return self.current_song();
        }
        let len = self.queue.len();
        if self.shuffle {
            let ghost h0 = self.history@;
            self.history.push(self.current_index);
            if self.history.len() > HISTORY_CAP {
                self.history.remove(0);
                proof {
                    assert(h0.push(self.current_index).skip(1) =~= self.history@);
                }
            }
            let remaining = positions_except(len, self.current_index);
            if remaining.len() > 0 {
                let k = random_below(remaining.len());
                self.current_index = remaining[k];
            } else if self.repeat == RepeatMode::All {
                let k = random_below(len);
                self.current_index = k as i32;
            } else {
                proof {
                    assert(!self.has_other());
                }
                return None;
            }
        } else if self.current_index >= 0 && (self.current_index as usize) < len - 1 {
            self.current_index = self.current_index + 1;
        } else if self.repeat == RepeatMode::All {
            self.current_index = 0;
        } else {
            return None;
        }
        self.current_song()
    }

    /// Goes back to the previous song (see `retreated`).
    pub fn previous(&mut self) -> (r: Option<&Song>)
        requires
            old(self).wf(),
        ensures
            final(self).wf(),
            QueueManager::retreated(*old(self), *final(self), as_song(r)),
    {
        if self.queue.is_empty() {
            return None;
        }
        if self.shuffle && !self.history.is_empty() {
            match self.history.pop() {
                Some(h) => {
                    self.current_index = h;
                },
                None => {},
            }
        } else if self.current_index > 0 {
            self.current_index = self.current_index - 1;
        } else if self.repeat == RepeatMode::All {
            self.current_index = self.queue.len() as i32 - 1;
        } else {
            return None;
        }
        self.current_song()
    }

    /// Makes the song at `index` the current one; under shuffle the history is forgotten.
    pub fn jump_to(&mut self, index: usize) -> (r: Option<&Song>)
        requires
            old(self).wf(),
        ensures
            final(self).wf(),
            index >= old(self).songs().len() ==> QueueManager::unchanged(*old(self), *final(self))
                && r is None,
            QueueManager::jumped(*old(self), *final(self), index as int),
            index < old(self).songs().len() ==> {
                &&& QueueManager::same_lists(*old(self), *final(self))
                &&& final(self).index() == index
                &&& final(self).visited() == if old(self).shuffled() {
                    Seq::empty()
                } else {
                    old(self).visited()
                }
                &&& as_song(r) == Some(old(self).songs()[index as int])
            },
    {
        if index < self.queue.len() {
            self.current_index = index as i32;
            if self.shuffle {
                self.history.clear();
            }
            self.current_song()
        } else {
            None
        }
    }

    /// Turns shuffle on (shuffling the play order, current song first) or off
    /// (restoring the original order).
    pub fn toggle_shuffle(&mut self)
        requires
            old(self).wf(),
        ensures
            final(self).wf(),
            final(self).shuffled() == !old(self).shuffled(),
            final(self).original() == old(self).original(),
            final(self).repeat() == old(self).repeat(),
            final(self).shuffled() ==> QueueManager::shuffle_applied(*old(self), *final(self)),
            !final(self).shuffled() ==> QueueManager::order_restored(*old(self), *final(self)),
    {
        self.shuffle = !self.shuffle;
        if self.shuffle {
            self.apply_shuffle();
        } else {
            self.restore_order();
        }
    }

    pub fn set_shuffle(&mut self, enabled: bool)
        requires
            old(self).wf(),
        ensures
            final(self).wf(),
            final(self).shuffled() == enabled,
            final(self).original() == old(self).original(),
            final(self).repeat() == old(self).repeat(),
            enabled == old(self).shuffled() ==> QueueManager::unchanged(*old(self), *final(self)),
            enabled && !old(self).shuffled() ==> QueueManager::shuffle_applied(
                *old(self),
                *final(self),
            ),
            !enabled && old(self).shuffled() ==> QueueManager::order_restored(
                *old(self),
                *final(self),
            ),
    {
        if enabled != self.shuffle {
            self.toggle_shuffle();
        }
    }

    pub fn cycle_repeat(&mut self) -> (r: RepeatMode)
        requires
            old(self).wf(),
        ensures
            final(self).wf(),
            r == next_mode(old(self).repeat()),
            final(self).repeat() == r,
            QueueManager::same_lists_but_repeat(*old(self), *final(self)),
    {
        self.repeat = self.repeat.cycle();
        self.repeat
    }

    pub fn set_repeat(&mut self, mode: RepeatMode)
        requires
            old(self).wf(),
        ensures
            final(self).wf(),
            final(self).repeat() == mode,
            QueueManager::same_lists_but_repeat(*old(self), *final(self)),
    {
        self.repeat = mode;
    }

    /// `new` differs from `old` at most in its repeat mode.
    pub open spec fn same_lists_but_repeat(old: QueueManager, new: QueueManager) -> bool {
        &&& new.songs() == old.songs()
        &&& new.original() == old.original()
        &&& new.shuffled() == old.shuffled()
        &&& new.index() == old.index()
        &&& new.visited() == old.visited()
    }

    fn apply_shuffle(&mut self)
        requires
            old(self).wf(),
        ensures
            final(self).wf(),
            final(self).original() == old(self).original(),
            final(self).shuffled() == old(self).shuffled(),
            final(self).repeat() == old(self).repeat(),
            QueueManager::shuffle_applied(*old(self), *final(self)),
    {
        let len = self.queue.len();
        if len <= 1 {
            return;
        }
        let ghost q0 = self.queue@;
        let ci = self.current_index;
        let mut others: Vec<Song> = Vec::new();
        let mut i: usize = 0;
        while i < len
            invariant
                len == q0.len(),
                q0 == self.queue@,
                ci == self.current_index,
                i <= len,
                others@ == if 0 <= ci < i {
                    q0.take(i as int).remove(ci as int)
                } else {
                    q0.take(i as int)
                },
            decreases len - i,
        {
            if ci < 0 || i != ci as usize {
                others.push(self.queue[i].duplicate());
                proof {
                    if 0 <= ci < i {
                        assert(q0.take(i as int).remove(ci as int).push(q0[i as int]) =~= q0.take(
                            i + 1,
                        ).remove(ci as int));
                    } else {
                        assert(q0.take(i as int).push(q0[i as int]) =~= q0.take(i + 1));
                    }
                }
            } else {
                proof {
                    assert(q0.take(i as int) =~= q0.take(i + 1).remove(ci as int));
                }
            }
            i = i + 1;
        }
        assert(q0.take(len as int) =~= q0);
        shuffle_songs(&mut others);
        let ghost rest = others@;
        let current = if ci >= 0 && (ci as usize) < len {
            Some(self.queue[ci as usize].duplicate())
        } else {
            None
        };
        let new_queue = match current {
            Some(cur) => {
                let mut v: Vec<Song> = Vec::new();
                v.push(cur);
                v.append(&mut others);
                v
            },
            None => others,
        };
        proof {
            let nq = new_queue@;
            if 0 <= ci < len {
                assert(nq.drop_first() =~= rest);
                vstd::seq_lib::to_multiset_len(rest);
                vstd::seq_lib::to_multiset_len(q0.remove(ci as int));
                lemma_front_and_rest_multiset(q0, ci as int, nq);
            } else {
                assert(nq =~= rest);
            }
            vstd::seq_lib::to_multiset_len(nq);
            vstd::seq_lib::to_multiset_len(q0);
            lemma_same_multiset_same_ids(q0, nq);
            assert(shuffled_from(q0, ci as int, nq));
        }
        self.queue = new_queue;
        self.current_index = 0;
        self.history.clear();
    }

    fn restore_order(&mut self)
        requires
            old(self).wf(),
        ensures
            final(self).wf(),
            final(self).original() == old(self).original(),
            final(self).shuffled() == old(self).shuffled(),
            final(self).repeat() == old(self).repeat(),
            QueueManager::order_restored(*old(self), *final(self)),
    {
        let current_id = match self.current_song() {
            Some(s) => Some(s.id.clone()),
            None => None,
        };
        self.queue = copy_songs(&self.original_queue);
        match current_id {
            Some(id) => {
                match find_id(&self.queue, &id) {
                    Some(p) => {
                        self.current_index = p as i32;
                    },
                    None => {
                        self.current_index = 0;
                    },
                }
            },
            None => {},
        }
        self.history.clear();
    }

    /// Up to `count` songs that follow the current one.
    pub fn get_upcoming(&self, count: usize) -> (r: &[Song])
        requires
            self.wf(),
            self.songs().len() > 0 && self.index() >= 0 ==> self.index() < i32::MAX
                && self.index() + 1 + count <= usize::MAX,
        ensures
            r@ == if self.songs().len() == 0 || self.index() < 0 || self.index() + 1
                >= self.songs().len() {
                Seq::empty()
            } else {
                self.songs().subrange(
                    self.index() + 1,
                    if self.index() + 1 + count < self.songs().len() {
                        self.index() + 1 + count
                    } else {
                        self.songs().len() as int
                    },
                )
            },
    {
        let empty: &[Song] = &[];
        if self.queue.is_empty() || self.current_index < 0 {
            assert(empty@ =~= Seq::<Song>::empty());
            return empty;
        }
        let start = (self.current_index + 1) as usize;
        let end = if start + count < self.queue.len() {
            start + count
        } else {
            self.queue.len()
        };
        if start >= self.queue.len() {
            assert(empty@ =~= Seq::<Song>::empty());
            return empty;
        }
        vstd::slice::slice_subrange(self.queue.as_slice(), start, end)
    }

    /// The sum of the durations of the queued songs.
    pub fn total_duration(&self) -> (r: u64)
        requires
            total_seconds(self.songs()) <= u64::MAX,
        ensures
            r == total_seconds(self.songs()),
    {
        let mut total: u64 = 0;
        let mut i: usize = 0;
        while i < self.queue.len()
            invariant
                i <= self.queue@.len(),
                total == total_seconds(self.queue@.take(i as int)),
                total_seconds(self.queue@) <= u64::MAX,
            decreases self.queue@.len() - i,
        {
            proof {
                assert(self.queue@.take(i + 1).drop_last() =~= self.queue@.take(i as int));
                lemma_total_seconds_prefix(self.queue@, i + 1);
            }
            total = total + self.queue[i].duration;
            i = i + 1;
        }
        assert(self.queue@.take(self.queue@.len() as int) =~= self.queue@);
        total
    }

    /// The sum of the durations of the queued songs, or none when it does
    /// not fit a `u64`.
    pub fn checked_total_duration(&self) -> (r: Option<u64>)
        ensures
            match r {
                Some(t) => t == total_seconds(self.songs()),
                None => total_seconds(self.songs()) > u64::MAX,
            },
    {
        let mut total: u64 = 0;
        let mut i: usize = 0;
        while i < self.queue.len()
            invariant
                i <= self.queue@.len(),
                total == total_seconds(self.queue@.take(i as int)),
            decreases self.queue@.len() - i,
        {
            proof {
                assert(self.queue@.take(i + 1).drop_last() =~= self.queue@.take(i as int));
                lemma_total_seconds_prefix(self.queue@, i + 1);
            }
            match total.checked_add(self.queue[i].duration) {
                Some(t) => {
                    total = t;
                },
                None => {
                    return None;
                },
            }
            i = i + 1;
        }
        assert(self.queue@.take(self.queue@.len() as int) =~= self.queue@);
        Some(total)
    }

    pub fn history(&self) -> (r: &[i32])
        ensures
            r@ == self.visited(),
    {
        self.history.as_slice()
    }
}

impl Default for QueueManager {
    fn default() -> (r: Self)
        ensures
            r.wf(),
            r.songs().len() == 0,
            r.original().len() == 0,
            r.index() == -1,
            !r.shuffled(),
            r.repeat() == RepeatMode::Off,
            r.visited().len() == 0,
    {
        Self::new()
    }
}

/// Every state of the queue holds the same songs, by id and count, in its
/// play order as in its original order; the history keeps at most
/// `HISTORY_CAP` positions.
pub proof fn lemma_queue_matches_original(q: QueueManager)
    requires
        q.wf(),
    ensures
        song_ids(q.songs()).to_multiset() == song_ids(q.original()).to_multiset(),
        q.songs().len() == q.original().len(),
        q.visited().len() <= HISTORY_CAP,
{
}

/// Turning shuffle on keeps the current song current.
pub proof fn lemma_shuffle_keeps_current(old: QueueManager, new: QueueManager)
    requires
        old.wf(),
        QueueManager::shuffle_applied(old, new),
        old.current() is Some,
    ensures
        new.current() == old.current(),
{
}

/// Turning shuffle off keeps a song with the current song's id current.
pub proof fn lemma_restore_keeps_current(old: QueueManager, new: QueueManager)
    requires
        old.wf(),
        QueueManager::order_restored(old, new),
        old.current() is Some,
    ensures
        new.current() is Some,
        new.current()->0.id@ == old.current()->0.id@,
{
    lemma_id_in_original(old.songs(), old.original(), old.index());
}

/// Turning shuffle on and then off gives back the original order, with a song
/// of the same id as before current.
pub proof fn lemma_unshuffle_restores_order(q0: QueueManager, q1: QueueManager, q2: QueueManager)
    requires
        q0.wf(),
        q1.wf(),
        q1.original() == q0.original(),
        QueueManager::shuffle_applied(q0, q1),
        QueueManager::order_restored(q1, q2),
        q0.current() is Some,
    ensures
        q2.songs() == q0.original(),
        q2.current() is Some,
        q2.current()->0.id@ == q0.current()->0.id@,
{
    lemma_shuffle_keeps_current(q0, q1);
    lemma_restore_keeps_current(q1, q2);
}

/// One `next`, `previous` or `jump_to` leaves both orders and the modes alone.
proof fn lemma_move_keeps_lists(old: QueueManager, new: QueueManager)
    requires
        QueueManager::moved(old, new),
    ensures
        QueueManager::same_lists(old, new),
{
    if exists|r: Option<Song>| #[trigger] QueueManager::advanced(old, new, r) {
        let r = choose|r: Option<Song>| #[trigger] QueueManager::advanced(old, new, r);
        assert(QueueManager::advanced(old, new, r));
    } else if exists|r: Option<Song>| #[trigger] QueueManager::retreated(old, new, r) {
        let r = choose|r: Option<Song>| #[trigger] QueueManager::retreated(old, new, r);
        assert(QueueManager::retreated(old, new, r));
    } else {
        let i = choose|i: int| 0 <= i && #[trigger] QueueManager::jumped(old, new, i);
        assert(QueueManager::jumped(old, new, i));
    }
}

/// Any series of moves leaves both orders and the modes as they were.
proof fn lemma_moves_keep_lists(moves: Seq<QueueManager>, k: int)
    requires
        0 <= k < moves.len(),
        forall|j: int| 0 <= j < moves.len() - 1 ==> QueueManager::moved(#[trigger] moves[j], moves[j + 1]),
    ensures
        QueueManager::same_lists(moves[0], moves[k]),
    decreases k,
{
    if k > 0 {
        lemma_moves_keep_lists(moves, k - 1);
        lemma_move_keeps_lists(moves[k - 1], moves[k]);
    }
}

/// Turning shuffle on over a queue in its original order (with distinct ids),
/// moving through it with any series of `next`, `previous` and `jump_to`, and
/// turning shuffle off gives back the original order, with the song that was
/// current still current and no history.
pub proof fn lemma_unshuffle_after_moves(
    q0: QueueManager,
    moves: Seq<QueueManager>,
    q2: QueueManager,
)
    requires
        q0.wf(),
        !q0.shuffled(),
        q0.songs() == q0.original(),
        forall|i: int, j: int|
            0 <= i < j < q0.original().len() ==> (#[trigger] q0.original()[i]).id@
                != (#[trigger] q0.original()[j]).id@,
        moves.len() > 0,
        moves[0].original() == q0.original(),
        QueueManager::shuffle_applied(q0, moves[0]),
        forall|j: int| 0 <= j < moves.len() - 1 ==> QueueManager::moved(#[trigger] moves[j], moves[j + 1]),
        moves.last().wf(),
        moves.last().current() is Some,
        QueueManager::order_restored(moves.last(), q2),
    ensures
        q2.songs() == q0.original(),
        q2.current() == moves.last().current(),
        q2.visited().len() == 0,
{
    broadcast use vstd::seq_lib::to_multiset_contains;

    let q1 = moves[0];
    let last = moves.last();
    lemma_moves_keep_lists(moves, moves.len() - 1);
    let o = q0.original();
    let s1 = q1.songs();
    // The shuffled order holds the same songs as the original order.
    if q0.songs().len() > 1 && 0 <= q0.index() < q0.songs().len() {
        lemma_front_and_rest_multiset(q0.songs(), q0.index(), s1);
    }
    assert(s1.to_multiset() == o.to_multiset());
    let cur = last.current()->0;
    let idx = last.index();
    assert(s1[idx] == cur);
    assert(s1.contains(cur));
    assert(o.to_multiset().count(cur) > 0);
    assert(o.contains(cur));
    let j = choose|j: int| 0 <= j < o.len() && o[j] == cur;
    lemma_id_in_original(last.songs(), last.original(), idx);
    let p = position_of_id(o, cur.id@)->0;
    if p != j {
        if p < j {
            assert(o[p].id@ != o[j].id@);
        } else {
            assert(o[j].id@ != o[p].id@);
        }
    }
    assert(q2.index() == p);
}

/// Under shuffle, `previous` goes back to the position `next` left; the
/// history comes back too unless it was full.
pub proof fn lemma_previous_undoes_shuffled_next(
    q0: QueueManager,
    q1: QueueManager,
    r1: Option<Song>,
    q2: QueueManager,
    r2: Option<Song>,
)
    requires
        q0.wf(),
        q0.shuffled(),
        q0.repeat() != RepeatMode::One,
        q0.songs().len() > 0,
        QueueManager::advanced(q0, q1, r1),
        QueueManager::retreated(q1, q2, r2),
    ensures
        q2.index() == q0.index(),
        q2.songs() == q0.songs(),
        q0.visited().len() < HISTORY_CAP ==> q2.visited() == q0.visited(),
{
    let pushed = q0.visited().push(q0.index() as i32);
    if pushed.len() > HISTORY_CAP {
        assert(capped(pushed).last() == pushed.last());
    } else {
        assert(capped(pushed).drop_last() =~= q0.visited());
    }
}

/// Without shuffle, `previous` goes back to the song `next` left, when a song
/// followed it.
pub proof fn lemma_previous_undoes_next(
    q0: QueueManager,
    q1: QueueManager,
    r1: Option<Song>,
    q2: QueueManager,
    r2: Option<Song>,
)
    requires
        q0.wf(),
        !q0.shuffled(),
        q0.repeat() != RepeatMode::One,
        0 <= q0.index() < q0.songs().len() - 1,
        QueueManager::advanced(q0, q1, r1),
        QueueManager::retreated(q1, q2, r2),
    ensures
        q2.index() == q0.index(),
        r2 == q0.current(),
{
}

/// Moving a song within the queue keeps the song that plays: the song at the
/// current position afterwards is the one that was current before.
pub proof fn lemma_move_keeps_current_song(old: QueueManager, new: QueueManager, from: int, to: int)
    requires
        0 <= from < old.songs().len(),
        0 <= to < old.songs().len(),
        new.songs() == old.songs().remove(from).insert(to, old.songs()[from]),
        new.index() == index_after_move(old.index(), from, to),
        old.current() is Some,
    ensures
        new.current() == old.current(),
        0 <= new.index() < new.songs().len(),
        new.songs()[new.index()] == old.songs()[old.index()],
{
    let s = old.songs();
    let x = s[from];
    let rm = s.remove(from);
    let c = old.index();
    assert(new.songs().len() == s.len());
    if from == c {
        assert(new.songs()[to] == x);
    } else if from < c && to >= c {
        assert(rm[c - 1] == s[c]);
        assert(new.songs()[c - 1] == rm[c - 1]);
    } else if to <= c && from > c {
        assert(rm[c] == s[c]);
        assert(new.songs()[c + 1] == rm[c]);
    } else if from < c {
        assert(rm[c - 1] == s[c]);
        assert(new.songs()[c] == rm[c - 1]);
    } else {
        assert(rm[c] == s[c]);
        assert(new.songs()[c] == rm[c]);
    }
}

/// Removing a song keeps the song that plays when another one is removed;
/// removing the current song makes the one that followed it current, or the
/// new last one when it was the last, or none when the queue is now empty.
pub proof fn lemma_remove_current_song(old: QueueManager, new: QueueManager, removed: int)
    requires
        0 <= removed < old.songs().len(),
        new.songs() == old.songs().remove(removed),
        new.index() == index_after_removal(old.index(), removed, new.songs().len() as int),
        old.current() is Some,
    ensures
        removed != old.index() ==> new.current() == old.current(),
        removed == old.index() && removed < new.songs().len() ==> new.index() == old.index()
            && new.current() == Some(old.songs()[removed + 1]),
        removed == old.index() && removed == new.songs().len() && removed > 0 ==> new.current()
            == Some(old.songs()[removed - 1]),
        new.songs().len() == 0 ==> new.current() is None,
{
    let s = old.songs();
    let c = old.index();
    let rm = s.remove(removed);
    if removed < c {
        assert(rm[c - 1] == s[c]);
    } else if removed > c {
        assert(rm[c] == s[c]);
    } else if removed < rm.len() {
        assert(rm[c] == s[c + 1]);
    } else if removed > 0 {
        assert(rm[removed - 1] == s[removed - 1]);
    }
}

/// Adding songs at the end keeps the song that plays; adding one as the next
/// song keeps the song that plays and puts the new one right after it.
pub proof fn lemma_additions_keep_current_song(old: QueueManager, new: QueueManager, song: Song)
    requires
        old.current() is Some,
        new.index() == old.index(),
        new.songs() == old.songs().push(song) || new.songs() == old.songs().insert(
            old.index() + 1,
            song,
        ),
    ensures
        new.current() == old.current(),
        new.songs() == old.songs().insert(old.index() + 1, song) ==> new.songs()[new.index() + 1]
            == song,
{
    let c = old.index();
    if new.songs() == old.songs().insert(c + 1, song) {
        assert(new.songs()[c] == old.songs()[c]);
        assert(new.songs()[c + 1] == song);
    } else {
        assert(new.songs()[c] == old.songs()[c]);
    }
}

/// Shuffles the songs in place with `rand`'s `SliceRandom::shuffle` on the
/// thread-local generator. What holds of every outcome: the same songs, in
/// some order. Which order comes out is left to chance and not stated.
#[verifier::external_body]
fn shuffle_songs(songs: &mut Vec<Song>)
    ensures
        final(songs)@.to_multiset() == old(songs)@.to_multiset(),
{
    songs.shuffle(&mut rand::thread_rng());
}

/// A number drawn with `rand`'s `Rng::gen_range(0..n)` on the thread-local
/// generator: below `n` (the call panics on an empty range, hence `n > 0`).
/// Which number comes out is left to chance and not stated.
#[verifier::external_body]
fn random_below(n: usize) -> (r: usize)
    requires
        n > 0,
    ensures
        r < n,
{
    rand::thread_rng().gen_range(0..n)
}

/// The positions below `len` other than `except`, in increasing order.
fn positions_except(len: usize, except: i32) -> (r: Vec<i32>)
    requires
        len <= i32::MAX,
    ensures
        forall|k: int| 0 <= k < r@.len() ==> 0 <= #[trigger] r@[k] < len && r@[k] != except,
        (r@.len() > 0) == other_position_exists(len as int, except as int),
{
    let mut out: Vec<i32> = Vec::new();
    let mut i: usize = 0;
    while i < len
        invariant
            i <= len,
            len <= i32::MAX,
            forall|k: int| 0 <= k < out@.len() ==> 0 <= #[trigger] out@[k] < i && out@[k] != except,
            (out@.len() > 0) == other_position_exists(i as int, except as int),
        decreases len - i,
    {
        if i as i32 != except {
            out.push(i as i32);
        }
        i = i + 1;
    }
    out
}

/// The first position of `songs` holding a song with id `id`.
fn find_id(songs: &Vec<Song>, id: &String) -> (r: Option<usize>)
    ensures
        match r {
            Some(p) => position_of_id(songs@, id@) == Some(p as int) && p < songs@.len()
                && songs@[p as int].id@ == id@,
            None => position_of_id(songs@, id@) is None,
        },
{
    let mut j: usize = 0;
    while j < songs.len()
        invariant
            j <= songs@.len(),
            forall|k: int| 0 <= k < j ==> (#[trigger] songs@[k]).id@ != id@,
        decreases songs@.len() - j,
    {
        if songs[j].id == *id {
            proof {
                lemma_first_position(songs@, id@, j as int);
            }
            return Some(j);
        }
        j = j + 1;
    }
    proof {
        lemma_first_position(songs@, id@, j as int);
    }
    None
}

/// The history with the entries for position `removed` dropped and later positions moved down.
fn adjust_history(h: &Vec<i32>, removed: i32) -> (r: Vec<i32>)
    requires
        removed >= 0,
    ensures
        r@ == history_after_removal(h@, removed as int),
{
    let mut out: Vec<i32> = Vec::new();
    let mut i: usize = 0;
    while i < h.len()
        invariant
            i <= h@.len(),
            removed >= 0,
            out@ == history_after_removal(h@.take(i as int), removed as int),
        decreases h@.len() - i,
    {
        let x = h[i];
        assert(h@.take(i + 1).drop_last() =~= h@.take(i as int));
        if x == removed {
        } else if x > removed {
            out.push(x - 1);
        } else {
            out.push(x);
        }
        i = i + 1;
    }
    assert(h@.take(h@.len() as int) =~= h@);
    out
}

proof fn lemma_history_after_removal_len(h: Seq<i32>, removed: int)
    ensures
        history_after_removal(h, removed).len() <= h.len(),
    decreases h.len(),
{
    if h.len() > 0 {
        lemma_history_after_removal_len(h.drop_last(), removed);
    }
}

proof fn lemma_total_seconds_prefix(s: Seq<Song>, n: int)
    requires
        0 <= n <= s.len(),
    ensures
        total_seconds(s.take(n)) <= total_seconds(s),
    decreases s.len() - n,
{
    if n < s.len() {
        lemma_total_seconds_prefix(s, n + 1);
        assert(s.take(n + 1).drop_last() =~= s.take(n));
    } else {
        assert(s.take(n) =~= s);
    }
}

/// When no position before `j` holds id `id`, the first position with the id
/// is `j` (if `j` holds it) or there is none (if `j` is the end).
proof fn lemma_first_position(s: Seq<Song>, id: Seq<char>, j: int)
    requires
        0 <= j <= s.len(),
        forall|k: int| 0 <= k < j ==> (#[trigger] s[k]).id@ != id,
        j < s.len() ==> s[j].id@ == id,
    ensures
        position_of_id(s, id) == if j < s.len() {
            Some(j)
        } else {
            None::<int>
        },
    decreases j,
{
    if j > 0 {
        let t = s.drop_first();
        assert forall|k: int| 0 <= k < j - 1 implies (#[trigger] t[k]).id@ != id by {
            assert(t[k] == s[k + 1]);
        }
        if j < s.len() {
            assert(t[j - 1] == s[j]);
        }
        lemma_first_position(t, id, j - 1);
        assert(s[0].id@ != id);
    }
}

/// If some song of `s` has id `id`, a first position with that id exists and holds it.
proof fn lemma_position_exists(s: Seq<Song>, id: Seq<char>)
    requires
        song_ids(s).contains(id),
    ensures
        position_of_id(s, id) is Some,
        0 <= position_of_id(s, id)->0 < s.len(),
        s[position_of_id(s, id)->0].id@ == id,
    decreases s.len(),
{
    if s[0].id@ != id {
        let k = choose|k: int| 0 <= k < song_ids(s).len() && song_ids(s)[k] == id;
        assert(k != 0);
        assert(song_ids(s.drop_first())[k - 1] == id);
        lemma_position_exists(s.drop_first(), id);
        assert(s.drop_first()[position_of_id(s.drop_first(), id)->0] == s[position_of_id(
            s.drop_first(),
            id,
        )->0 + 1]);
    }
}

/// Under the queue's invariant, the id of any queued song occurs in the original order.
proof fn lemma_id_in_original(q: Seq<Song>, o: Seq<Song>, i: int)
    requires
        0 <= i < q.len(),
        song_ids(q).to_multiset() == song_ids(o).to_multiset(),
    ensures
        position_of_id(o, q[i].id@) is Some,
        0 <= position_of_id(o, q[i].id@)->0 < o.len(),
        o[position_of_id(o, q[i].id@)->0].id@ == q[i].id@,
{
    let id = q[i].id@;
    assert(song_ids(q)[i] == id);
    vstd::seq_lib::to_multiset_contains(song_ids(q), id);
    vstd::seq_lib::to_multiset_contains(song_ids(o), id);
    lemma_position_exists(o, id);
}

/// Moving the song at `ci` to the front of an otherwise reordered list keeps
/// the multiset of songs.
proof fn lemma_front_and_rest_multiset(q: Seq<Song>, ci: int, nq: Seq<Song>)
    requires
        0 <= ci < q.len(),
        nq.len() > 0,
        nq[0] == q[ci],
        nq.drop_first().to_multiset() == q.remove(ci).to_multiset(),
    ensures
        nq.to_multiset() == q.to_multiset(),
{
    broadcast use vstd::multiset::group_multiset_axioms;

    vstd::seq_lib::to_multiset_insert(nq.drop_first(), 0, nq[0]);
    assert(nq.drop_first().insert(0, nq[0]) =~= nq);
    vstd::seq_lib::to_multiset_remove(q, ci);
    vstd::seq_lib::to_multiset_contains(q, q[ci]);
    assert(q.to_multiset().remove(q[ci]).insert(q[ci]) =~= q.to_multiset());
}

/// Two lists with the same songs (as multisets) have the same ids (as multisets).
proof fn lemma_same_multiset_same_ids(a: Seq<Song>, b: Seq<Song>)
    requires
        a.to_multiset() == b.to_multiset(),
    ensures
        song_ids(a).to_multiset() == song_ids(b).to_multiset(),
    decreases a.len(),
{
    broadcast use vstd::multiset::group_multiset_axioms;

    vstd::seq_lib::to_multiset_len(a);
    vstd::seq_lib::to_multiset_len(b);
    if a.len() == 0 {
        assert(song_ids(a) =~= Seq::<Seq<char>>::empty());
        assert(song_ids(b) =~= Seq::<Seq<char>>::empty());
    } else {
        let x = a[0];
        vstd::seq_lib::to_multiset_contains(a, x);
        vstd::seq_lib::to_multiset_contains(b, x);
        let j = choose|j: int| 0 <= j < b.len() && b[j] == x;
        vstd::seq_lib::to_multiset_remove(a, 0);
        vstd::seq_lib::to_multiset_remove(b, j);
        assert(a.remove(0) =~= a.drop_first());
        lemma_same_multiset_same_ids(a.drop_first(), b.remove(j));
        let ia = song_ids(a);
        let ib = song_ids(b);
        assert(song_ids(a.drop_first()) =~= ia.remove(0));
        assert(song_ids(b.remove(j)) =~= ib.remove(j));
        vstd::seq_lib::to_multiset_remove(ia, 0);
        vstd::seq_lib::to_multiset_remove(ib, j);
        assert(ia[0] == x.id@);
        assert(ib[j] == x.id@);
        vstd::seq_lib::to_multiset_contains(ia, x.id@);
        vstd::seq_lib::to_multiset_contains(ib, x.id@);
        assert(ia.to_multiset().remove(x.id@).insert(x.id@) =~= ia.to_multiset());
        assert(ib.to_multiset().remove(x.id@).insert(x.id@) =~= ib.to_multiset());
    }
}

} // verus!
