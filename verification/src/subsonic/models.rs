//! Catalogue entries as the Subsonic API describes them.

use vstd::prelude::*;

use crate::json::{
    as_bool, as_str, as_u64, bool_of, member, or_text, or_u64, str_of, text_of,
    text_value, u64_of, JsonValue,
};
use crate::text::owned;

verus! {

/// A track of the library.
#[derive(Debug, Clone, PartialEq, Eq)]
pub struct Song {
    pub id: String,
    pub title: String,
    pub artist: String,
    pub album: String,
    pub album_id: String,
    pub artist_id: String,
    pub duration: u64,
    pub track: u32,
    pub year: u32,
    pub genre: String,
    pub size: u64,
    pub suffix: String,
    pub bitrate: u32,
    pub cover_art_id: String,
}

impl Song {
    /// A field-by-field copy of the song.
    pub fn duplicate(&self) -> (r: Song)
        ensures
            r == *self,
    {
        Song {
            id: self.id.clone(),
            title: self.title.clone(),
            artist: self.artist.clone(),
            album: self.album.clone(),
            album_id: self.album_id.clone(),
            artist_id: self.artist_id.clone(),
            duration: self.duration,
            track: self.track,
            year: self.year,
            genre: self.genre.clone(),
            size: self.size,
            suffix: self.suffix.clone(),
            bitrate: self.bitrate,
            cover_art_id: self.cover_art_id.clone(),
        }
    }
}

impl Default for Song {
    fn default() -> (r: Song)
        ensures
            r.id@ == Seq::<char>::empty(),
            r.title@ == "Unknown"@,
            r.artist@ == "Unknown Artist"@,
            r.album@ == "Unknown Album"@,
            r.album_id@ == Seq::<char>::empty(),
            r.artist_id@ == Seq::<char>::empty(),
            r.duration == 0,
            r.track == 0,
            r.year == 0,
            r.genre@ == Seq::<char>::empty(),
            r.size == 0,
            r.suffix@ == Seq::<char>::empty(),
            r.bitrate == 0,
            r.cover_art_id@ == Seq::<char>::empty(),
    {
        Song {
            id: String::new(),
            title: owned("Unknown"),
            artist: owned("Unknown Artist"),
            album: owned("Unknown Album"),
            album_id: String::new(),
            artist_id: String::new(),
            duration: 0,
            track: 0,
            year: 0,
            genre: String::new(),
            size: 0,
            suffix: String::new(),
            bitrate: 0,
            cover_art_id: String::new(),
        }
    }
}

/// Copies every song of a list, in order.
pub fn copy_songs(songs: &Vec<Song>) -> (r: Vec<Song>)
    ensures
        r@ == songs@,
{
    let mut out: Vec<Song> = Vec::new();
    let mut i: usize = 0;
    while i < songs.len()
        invariant
            i <= songs@.len(),
            out@ == songs@.take(i as int),
        decreases songs@.len() - i,
    {
        out.push(songs[i].duplicate());
        assert(songs@.take(i as int).push(songs@[i as int]) =~= songs@.take(i + 1));
        i = i + 1;
    }
    assert(songs@.take(songs@.len() as int) =~= songs@);
    out
}

/// The first of two optional texts that is present.
pub open spec fn either(a: Option<Seq<char>>, b: Option<Seq<char>>) -> Option<Seq<char>> {
    match a {
        Some(x) => Some(x),
        None => b,
    }
}

/// The text of the member `key` when it is a string, else `default`.
fn str_or(data: &JsonValue, key: &str, default: &str) -> (r: String)
    ensures
        r@ == or_text(str_of(member(*data, key@)), default@),
{
    match as_str(data.member(key)) {
        Some(s) => owned(s),
        None => owned(default),
    }
}

/// The member `key` when it is a non-negative integer, else 0.
fn u64_or_zero(data: &JsonValue, key: &str) -> (r: u64)
    ensures
        r == or_u64(u64_of(member(*data, key@)), 0),
{
    match as_u64(data.member(key)) {
        Some(x) => x,
        None => 0,
    }
}

/// The member `key` read as an identifier: a string's text or a number's printed text.
fn val_str(data: &JsonValue, key: &str) -> (r: String)
    ensures
        r@ == text_of(member(*data, key@)),
{
    text_value(data.member(key))
}

/// The first of two members that is a string, else `default`.
fn str_either_or(data: &JsonValue, first: &str, second: &str, default: &str) -> (r: String)
    ensures
        r@ == or_text(
            either(str_of(member(*data, first@)), str_of(member(*data, second@))),
            default@,
        ),
{
    match as_str(data.member(first)) {
        Some(s) => owned(s),
        None => str_or(data, second, default),
    }
}

/// `r` is what `Song::from_api` makes of `data`.
pub open spec fn song_from(data: JsonValue, r: Song) -> bool {
    &&& r.id@ == text_of(member(data, "id"@))
    &&& r.title@ == or_text(str_of(member(data, "title"@)), "Unknown"@)
    &&& r.artist@ == or_text(str_of(member(data, "artist"@)), "Unknown Artist"@)
    &&& r.album@ == or_text(str_of(member(data, "album"@)), "Unknown Album"@)
    &&& r.album_id@ == text_of(member(data, "albumId"@))
    &&& r.artist_id@ == text_of(member(data, "artistId"@))
    &&& r.duration == or_u64(u64_of(member(data, "duration"@)), 0)
    &&& r.track == or_u64(u64_of(member(data, "track"@)), 0) as u32
    &&& r.year == or_u64(u64_of(member(data, "year"@)), 0) as u32
    &&& r.genre@ == or_text(str_of(member(data, "genre"@)), ""@)
    &&& r.size == or_u64(u64_of(member(data, "size"@)), 0)
    &&& r.suffix@ == or_text(str_of(member(data, "suffix"@)), ""@)
    &&& r.bitrate == or_u64(u64_of(member(data, "bitRate"@)), 0) as u32
    &&& r.cover_art_id@ == text_of(member(data, "coverArt"@))
}

impl Song {
    /// A song from an entry of a Subsonic response.
    pub fn from_api(data: &JsonValue) -> (r: Song)
        ensures
            song_from(*data, r),
    {
        Song {
            id: val_str(data, "id"),
            title: str_or(data, "title", "Unknown"),
            artist: str_or(data, "artist", "Unknown Artist"),
            album: str_or(data, "album", "Unknown Album"),
            album_id: val_str(data, "albumId"),
            artist_id: val_str(data, "artistId"),
            duration: u64_or_zero(data, "duration"),
            track: u64_or_zero(data, "track") as u32,
            year: u64_or_zero(data, "year") as u32,
            genre: str_or(data, "genre", ""),
            size: u64_or_zero(data, "size"),
            suffix: str_or(data, "suffix", ""),
            bitrate: u64_or_zero(data, "bitRate") as u32,
            cover_art_id: val_str(data, "coverArt"),
        }
    }
}

/// An album of the library.
#[derive(Debug, Clone, PartialEq, Eq)]
pub struct Album {
    pub id: String,
    pub name: String,
    pub artist: String,
    pub artist_id: String,
    pub song_count: u32,
    pub duration: u64,
    pub year: u32,
    pub genre: String,
    pub cover_art_id: String,
}

impl Default for Album {
    fn default() -> (r: Album)
        ensures
            r.id@ == Seq::<char>::empty(),
            r.name@ == "Unknown Album"@,
            r.artist@ == "Unknown Artist"@,
            r.artist_id@ == Seq::<char>::empty(),
            r.song_count == 0,
            r.duration == 0,
            r.year == 0,
            r.genre@ == Seq::<char>::empty(),
            r.cover_art_id@ == Seq::<char>::empty(),
    {
        Album {
            id: String::new(),
            name: owned("Unknown Album"),
            artist: owned("Unknown Artist"),
            artist_id: String::new(),
            song_count: 0,
            duration: 0,
            year: 0,
            genre: String::new(),
            cover_art_id: String::new(),
        }
    }
}

/// `r` is what `Album::from_api` makes of `data`.
pub open spec fn album_from(data: JsonValue, r: Album) -> bool {
    &&& r.id@ == text_of(member(data, "id"@))
    &&& r.name@ == or_text(
        either(str_of(member(data, "name"@)), str_of(member(data, "album"@))),
        "Unknown Album"@,
    )
    &&& r.artist@ == or_text(str_of(member(data, "artist"@)), "Unknown Artist"@)
    &&& r.artist_id@ == text_of(member(data, "artistId"@))
    &&& r.song_count == or_u64(u64_of(member(data, "songCount"@)), 0) as u32
    &&& r.duration == or_u64(u64_of(member(data, "duration"@)), 0)
    &&& r.year == or_u64(u64_of(member(data, "year"@)), 0) as u32
    &&& r.genre@ == or_text(str_of(member(data, "genre"@)), ""@)
    &&& r.cover_art_id@ == text_of(member(data, "coverArt"@))
}

impl Album {
    /// An album from an entry of a Subsonic response; the name falls back to
    /// the "album" member.
    pub fn from_api(data: &JsonValue) -> (r: Album)
        ensures
            album_from(*data, r),
    {
        Album {
            id: val_str(data, "id"),
            name: str_either_or(data, "name", "album", "Unknown Album"),
            artist: str_or(data, "artist", "Unknown Artist"),
            artist_id: val_str(data, "artistId"),
            song_count: u64_or_zero(data, "songCount") as u32,
            duration: u64_or_zero(data, "duration"),
            year: u64_or_zero(data, "year") as u32,
            genre: str_or(data, "genre", ""),
            cover_art_id: val_str(data, "coverArt"),
        }
    }
}

/// An artist of the library.
#[derive(Debug, Clone, PartialEq, Eq)]
pub struct Artist {
    pub id: String,
    pub name: String,
    pub album_count: u32,
    pub cover_art_id: String,
}

impl Default for Artist {
    fn default() -> (r: Artist)
        ensures
            r.id@ == Seq::<char>::empty(),
            r.name@ == "Unknown Artist"@,
            r.album_count == 0,
            r.cover_art_id@ == Seq::<char>::empty(),
    {
        Artist {
            id: String::new(),
            name: owned("Unknown Artist"),
            album_count: 0,
            cover_art_id: String::new(),
        }
    }
}

/// `r` is what `Artist::from_api` makes of `data`.
pub open spec fn artist_from(data: JsonValue, r: Artist) -> bool {
    &&& r.id@ == text_of(member(data, "id"@))
    &&& r.name@ == or_text(str_of(member(data, "name"@)), "Unknown Artist"@)
    &&& r.album_count == or_u64(u64_of(member(data, "albumCount"@)), 0) as u32
    &&& r.cover_art_id@ == or_text(
        either(str_of(member(data, "coverArt"@)), str_of(member(data, "artistImageUrl"@))),
        ""@,
    )
}

impl Artist {
    /// An artist from an entry of a Subsonic response; the cover falls back to
    /// the "artistImageUrl" member.
    pub fn from_api(data: &JsonValue) -> (r: Artist)
        ensures
            artist_from(*data, r),
    {
        Artist {
            id: val_str(data, "id"),
            name: str_or(data, "name", "Unknown Artist"),
            album_count: u64_or_zero(data, "albumCount") as u32,
            cover_art_id: str_either_or(data, "coverArt", "artistImageUrl", ""),
        }
    }
}

/// A playlist on the server.
#[derive(Debug, Clone, PartialEq, Eq)]
pub struct Playlist {
    pub id: String,
    pub name: String,
    pub song_count: u32,
    pub duration: u64,
    pub owner: String,
    pub public: bool,
}

impl Default for Playlist {
    fn default() -> (r: Playlist)
        ensures
            r.id@ == Seq::<char>::empty(),
            r.name@ == "Unknown Playlist"@,
            r.song_count == 0,
            r.duration == 0,
            r.owner@ == Seq::<char>::empty(),
            !r.public,
    {
        Playlist {
            id: String::new(),
            name: owned("Unknown Playlist"),
            song_count: 0,
            duration: 0,
            owner: String::new(),
            public: false,
        }
    }
}

/// `r` is what `Playlist::from_api` makes of `data`.
pub open spec fn playlist_from(data: JsonValue, r: Playlist) -> bool {
    &&& r.id@ == text_of(member(data, "id"@))
    &&& r.name@ == or_text(str_of(member(data, "name"@)), "Unknown Playlist"@)
    &&& r.song_count == or_u64(u64_of(member(data, "songCount"@)), 0) as u32
    &&& r.duration == or_u64(u64_of(member(data, "duration"@)), 0)
    &&& r.owner@ == or_text(str_of(member(data, "owner"@)), ""@)
    &&& r.public == match bool_of(member(data, "public"@)) {
        Some(b) => b,
        None => false,
    }
}

impl Playlist {
    /// A playlist from an entry of a Subsonic response.
    pub fn from_api(data: &JsonValue) -> (r: Playlist)
        ensures
            playlist_from(*data, r),
    {
        Playlist {
            id: val_str(data, "id"),
            name: str_or(data, "name", "Unknown Playlist"),
            song_count: u64_or_zero(data, "songCount") as u32,
            duration: u64_or_zero(data, "duration"),
            owner: str_or(data, "owner", ""),
            public: match as_bool(data.member("public")) {
                Some(b) => b,
                None => false,
            },
        }
    }
}

/// A genre with its counts.
#[derive(Debug, Clone, PartialEq, Eq)]
pub struct Genre {
    pub name: String,
    pub song_count: u32,
    pub album_count: u32,
}

impl Default for Genre {
    fn default() -> (r: Genre)
        ensures
            r.name@ == "Unknown"@,
            r.song_count == 0,
            r.album_count == 0,
    {
        Genre { name: owned("Unknown"), song_count: 0, album_count: 0 }
    }
}

/// `r` is what `Genre::from_api` makes of `data`.
pub open spec fn genre_from(data: JsonValue, r: Genre) -> bool {
    &&& r.name@ == or_text(str_of(member(data, "value"@)), "Unknown"@)
    &&& r.song_count == or_u64(u64_of(member(data, "songCount"@)), 0) as u32
    &&& r.album_count == or_u64(u64_of(member(data, "albumCount"@)), 0) as u32
}

impl Genre {
    /// A genre from an entry of a Subsonic response; its name is the "value" member.
    pub fn from_api(data: &JsonValue) -> (r: Genre)
        ensures
            genre_from(*data, r),
    {
        Genre {
            name: str_or(data, "value", "Unknown"),
            song_count: u64_or_zero(data, "songCount") as u32,
            album_count: u64_or_zero(data, "albumCount") as u32,
        }
    }
}

/// A song read from a server entry takes each field from the entry's member
/// of the API's name for it: the texts of the string members "id", "title",
/// "artist", "album", "albumId", "artistId", "genre", "suffix" and
/// "coverArt", and the numbers "duration", "size", "track", "year" and
/// "bitRate"; a missing title, artist or album reads as "Unknown",
/// "Unknown Artist" and "Unknown Album".
pub proof fn lemma_song_entry_fields(data: JsonValue, r: Song)
    requires
        song_from(data, r),
    ensures
        str_of(member(data, "id"@)) matches Some(t) ==> r.id@ == t,
        str_of(member(data, "title"@)) matches Some(t) ==> r.title@ == t,
        str_of(member(data, "artist"@)) matches Some(t) ==> r.artist@ == t,
        str_of(member(data, "album"@)) matches Some(t) ==> r.album@ == t,
        str_of(member(data, "albumId"@)) matches Some(t) ==> r.album_id@ == t,
        str_of(member(data, "artistId"@)) matches Some(t) ==> r.artist_id@ == t,
        str_of(member(data, "genre"@)) matches Some(t) ==> r.genre@ == t,
        str_of(member(data, "suffix"@)) matches Some(t) ==> r.suffix@ == t,
        str_of(member(data, "coverArt"@)) matches Some(t) ==> r.cover_art_id@ == t,
        u64_of(member(data, "duration"@)) matches Some(n) ==> r.duration == n,
        u64_of(member(data, "size"@)) matches Some(n) ==> r.size == n,
        u64_of(member(data, "track"@)) matches Some(n) ==> (n <= u32::MAX ==> r.track == n),
        u64_of(member(data, "year"@)) matches Some(n) ==> (n <= u32::MAX ==> r.year == n),
        u64_of(member(data, "bitRate"@)) matches Some(n) ==> (n <= u32::MAX ==> r.bitrate == n),
        member(data, "title"@) is None ==> r.title@ == "Unknown"@,
        member(data, "artist"@) is None ==> r.artist@ == "Unknown Artist"@,
        member(data, "album"@) is None ==> r.album@ == "Unknown Album"@,
        member(data, "id"@) is None ==> r.id@.len() == 0,
{
}

/// An album read from a server entry takes its id from "id", its artist's id
/// from "artistId", its cover from "coverArt", its artist, genre, song count,
/// duration and year from the members of those names, and its name from
/// "name", else from "album", else "Unknown Album".
pub proof fn lemma_album_entry_fields(data: JsonValue, r: Album)
    requires
        album_from(data, r),
    ensures
        str_of(member(data, "id"@)) matches Some(t) ==> r.id@ == t,
        str_of(member(data, "artistId"@)) matches Some(t) ==> r.artist_id@ == t,
        str_of(member(data, "coverArt"@)) matches Some(t) ==> r.cover_art_id@ == t,
        str_of(member(data, "artist"@)) matches Some(t) ==> r.artist@ == t,
        str_of(member(data, "genre"@)) matches Some(t) ==> r.genre@ == t,
        str_of(member(data, "name"@)) matches Some(t) ==> r.name@ == t,
        member(data, "name"@) is None ==> (str_of(member(data, "album"@)) matches Some(t)
            ==> r.name@ == t),
        member(data, "name"@) is None && member(data, "album"@) is None ==> r.name@
            == "Unknown Album"@,
        member(data, "artist"@) is None ==> r.artist@ == "Unknown Artist"@,
        member(data, "artistId"@) is None ==> r.artist_id@.len() == 0,
        u64_of(member(data, "songCount"@)) matches Some(n) ==> (n <= u32::MAX ==> r.song_count == n),
        u64_of(member(data, "duration"@)) matches Some(n) ==> r.duration == n,
        u64_of(member(data, "year"@)) matches Some(n) ==> (n <= u32::MAX ==> r.year == n),
{
}

/// An artist read from a server entry takes its id from "id", its name from
/// "name" (else "Unknown Artist"), its album count from "albumCount", and its
/// cover from "coverArt", else from "artistImageUrl".
pub proof fn lemma_artist_entry_fields(data: JsonValue, r: Artist)
    requires
        artist_from(data, r),
    ensures
        str_of(member(data, "id"@)) matches Some(t) ==> r.id@ == t,
        str_of(member(data, "name"@)) matches Some(t) ==> r.name@ == t,
        member(data, "name"@) is None ==> r.name@ == "Unknown Artist"@,
        u64_of(member(data, "albumCount"@)) matches Some(n) ==> (n <= u32::MAX ==> r.album_count == n),
        str_of(member(data, "coverArt"@)) matches Some(t) ==> r.cover_art_id@ == t,
        member(data, "coverArt"@) is None ==> (str_of(member(data, "artistImageUrl"@)) matches Some(
            t,
        ) ==> r.cover_art_id@ == t),
{
}

/// A playlist read from a server entry takes its id, name (else "Unknown
/// Playlist"), song count, duration, owner and public flag from the members
/// of those names.
pub proof fn lemma_playlist_entry_fields(data: JsonValue, r: Playlist)
    requires
        playlist_from(data, r),
    ensures
        str_of(member(data, "id"@)) matches Some(t) ==> r.id@ == t,
        str_of(member(data, "name"@)) matches Some(t) ==> r.name@ == t,
        member(data, "name"@) is None ==> r.name@ == "Unknown Playlist"@,
        u64_of(member(data, "songCount"@)) matches Some(n) ==> (n <= u32::MAX ==> r.song_count == n),
        u64_of(member(data, "duration"@)) matches Some(n) ==> r.duration == n,
        str_of(member(data, "owner"@)) matches Some(t) ==> r.owner@ == t,
        bool_of(member(data, "public"@)) matches Some(b) ==> r.public == b,
        member(data, "public"@) is None ==> !r.public,
{
}

/// A genre read from a server entry takes its name from "value" (else
/// "Unknown") and its counts from "songCount" and "albumCount".
pub proof fn lemma_genre_entry_fields(data: JsonValue, r: Genre)
    requires
        genre_from(data, r),
    ensures
        str_of(member(data, "value"@)) matches Some(t) ==> r.name@ == t,
        member(data, "value"@) is None ==> r.name@ == "Unknown"@,
        u64_of(member(data, "songCount"@)) matches Some(n) ==> (n <= u32::MAX ==> r.song_count == n),
        u64_of(member(data, "albumCount"@)) matches Some(n) ==> (n <= u32::MAX ==> r.album_count == n),
{
}

} // verus!
