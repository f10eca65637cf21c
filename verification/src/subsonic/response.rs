//! Reading the answers of the Subsonic API.

use vstd::prelude::*;

use super::error::SubsonicError;
use super::models::{
    album_from, artist_from, genre_from, playlist_from, song_from, Album, Artist, Genre, Playlist,
    Song,
};
use crate::json::{
    array_of, as_array, as_i64, as_str, deref_json, i64_of, member, member_in, member_of, or_text, str_of,
    JsonValue,
};
use crate::text::{owned, str_eq};

verus! {

/// An absent value reads as null.
pub open spec fn or_null(v: Option<JsonValue>) -> JsonValue {
    match v {
        Some(x) => x,
        None => JsonValue::Null,
    }
}

/// The answer's payload: its "subsonic-response" member.
pub open spec fn payload(data: JsonValue) -> Option<JsonValue> {
    member_of(Some(data), "subsonic-response"@)
}

/// Whether the answer reports a failure: its status is "failed".
pub open spec fn is_failure(data: JsonValue) -> bool {
    str_of(member_of(payload(data), "status"@)) == Some("failed"@)
}

/// The error code a failed answer reports: its integer "code", or -1.
pub open spec fn failure_code(data: JsonValue) -> i64 {
    match i64_of(member_of(member_of(payload(data), "error"@), "code"@)) {
        Some(c) => c,
        None => -1i64,
    }
}

/// The message a failed answer reports, or "Unknown error".
pub open spec fn failure_message(data: JsonValue) -> Seq<char> {
    or_text(str_of(member_of(member_of(payload(data), "error"@), "message"@)), "Unknown error"@)
}

/// An answer whose "subsonic-response" has the status "failed" is an API
/// error carrying the error's integer "code" (-1 without one) and its
/// "message" ("Unknown error" without one); any other answer is accepted
/// and its "subsonic-response" member handed on.
pub proof fn lemma_check_response_outcome(data: JsonValue, r: Result<Option<JsonValue>, SubsonicError>)
    requires
        match r {
            Ok(resp) => !is_failure(data) && resp == payload(data),
            Err(e) => is_failure(data) && e == SubsonicError::Api {
                code: failure_code(data),
                message: e->message,
            } && e->message@ == failure_message(data),
        },
    ensures
        (r is Err) == (str_of(member_of(member(data, "subsonic-response"@), "status"@)) == Some(
            "failed"@,
        )),
        r matches Ok(resp) ==> resp == member(data, "subsonic-response"@),
        r matches Err(e) ==> e is Api,
        r matches Err(e) ==> (i64_of(
            member_of(member_of(member(data, "subsonic-response"@), "error"@), "code"@),
        ) matches Some(c) ==> e->code == c),
        r matches Err(e) ==> (str_of(
            member_of(member_of(member(data, "subsonic-response"@), "error"@), "message"@),
        ) matches Some(m) ==> e->message@ == m),
{
}

/// Checks an answer: a failure becomes an API error with its code and
/// message; otherwise the payload is handed on.
pub fn check_response(data: &JsonValue) -> (r: Result<Option<&JsonValue>, SubsonicError>)
    ensures
        match r {
            Ok(resp) => !is_failure(*data) && deref_json(resp) == payload(*data),
            Err(e) => is_failure(*data) && e == SubsonicError::Api {
                code: failure_code(*data),
                message: e->message,
            } && e->message@ == failure_message(*data),
        },
        (r is Err) == (str_of(member_of(member(*data, "subsonic-response"@), "status"@)) == Some(
            "failed"@,
        )),
        r matches Ok(resp) ==> deref_json(resp) == member(*data, "subsonic-response"@),
{
    let sub = data.member("subsonic-response");
    let failed = match as_str(member_in(sub, "status")) {
        Some(s) => str_eq(s, "failed"),
        None => false,
    };
    if failed {
        let error = member_in(sub, "error");
        let code = match as_i64(member_in(error, "code")) {
            Some(c) => c,
            None => -1i64,
        };
        let message = match as_str(member_in(error, "message")) {
            Some(m) => owned(m),
            None => owned("Unknown error"),
        };
        return Err(SubsonicError::Api { code, message });
    }
    Ok(sub)
}

/// Whether a ping's payload reports status "ok".
pub fn ping_ok(resp: Option<&JsonValue>) -> (r: bool)
    ensures
        r == (str_of(member_of(deref_json(resp), "status"@)) == Some("ok"@)),
{
    match as_str(member_in(resp, "status")) {
        Some(s) => str_eq(s, "ok"),
        None => false,
    }
}

/// What a ping reports: `true` exactly when the request succeeded and its
/// payload's status is "ok"; a failed request reports `false`.
pub fn ping_result(r: Result<Option<&JsonValue>, SubsonicError>) -> (ok: bool)
    ensures
        ok == match r {
            Ok(resp) => str_of(member_of(deref_json(resp), "status"@)) == Some("ok"@),
            Err(_) => false,
        },
{
    match r {
        Ok(resp) => ping_ok(resp),
        Err(_) => false,
    }
}

/// The elements of an optional array, none when absent.
pub open spec fn items(v: Option<Seq<JsonValue>>) -> Seq<JsonValue> {
    match v {
        Some(xs) => xs,
        None => Seq::empty(),
    }
}

/// `r` holds one song per element of `xs`, read as `Song::from_api` reads it.
pub open spec fn songs_read(xs: Seq<JsonValue>, r: Seq<Song>) -> bool {
    &&& r.len() == xs.len()
    &&& forall|i: int| 0 <= i < xs.len() ==> song_from(xs[i], #[trigger] r[i])
}

/// `r` holds one album per element of `xs`.
pub open spec fn albums_read(xs: Seq<JsonValue>, r: Seq<Album>) -> bool {
    &&& r.len() == xs.len()
    &&& forall|i: int| 0 <= i < xs.len() ==> album_from(xs[i], #[trigger] r[i])
}

/// `r` holds one artist per element of `xs`.
pub open spec fn artists_read(xs: Seq<JsonValue>, r: Seq<Artist>) -> bool {
    &&& r.len() == xs.len()
    &&& forall|i: int| 0 <= i < xs.len() ==> artist_from(xs[i], #[trigger] r[i])
}

/// `r` holds one playlist per element of `xs`.
pub open spec fn playlists_read(xs: Seq<JsonValue>, r: Seq<Playlist>) -> bool {
    &&& r.len() == xs.len()
    &&& forall|i: int| 0 <= i < xs.len() ==> playlist_from(xs[i], #[trigger] r[i])
}

/// `r` holds one genre per element of `xs`.
pub open spec fn genres_read(xs: Seq<JsonValue>, r: Seq<Genre>) -> bool {
    &&& r.len() == xs.len()
    &&& forall|i: int| 0 <= i < xs.len() ==> genre_from(xs[i], #[trigger] r[i])
}

/// The value at `outer` then `inner` of a payload.
pub open spec fn at2(resp: Option<JsonValue>, outer: Seq<char>, inner: Seq<char>) -> Option<JsonValue> {
    member_of(member_of(resp, outer), inner)
}

/// A null to read absent values from.
fn null_or<'a>(v: Option<&'a JsonValue>, null: &'a JsonValue) -> (r: &'a JsonValue)
    requires
        *null == JsonValue::Null,
    ensures
        *r == or_null(deref_json(v)),
{
    match v {
        Some(x) => x,
        None => null,
    }
}

/// Songs read from the elements of an optional array (none when absent).
pub fn songs_in(v: Option<&JsonValue>) -> (r: Vec<Song>)
    ensures
        songs_read(items(array_of(deref_json(v))), r@),
{
    let mut out: Vec<Song> = Vec::new();
    match as_array(v) {
        Some(xs) => {
            let mut i: usize = 0;
            while i < xs.len()
                invariant
                    i <= xs@.len(),
                    items(array_of(deref_json(v))) == xs@,
                    songs_read(xs@.take(i as int), out@),
                decreases xs@.len() - i,
            {
                out.push(Song::from_api(&xs[i]));
                i = i + 1;
            }
            assert(xs@.take(xs@.len() as int) =~= xs@);
        },
        None => {},
    }
    out
}

/// Albums read from the elements of an optional array (none when absent).
pub fn albums_in(v: Option<&JsonValue>) -> (r: Vec<Album>)
    ensures
        albums_read(items(array_of(deref_json(v))), r@),
{
    let mut out: Vec<Album> = Vec::new();
    match as_array(v) {
        Some(xs) => {
            let mut i: usize = 0;
            while i < xs.len()
                invariant
                    i <= xs@.len(),
                    items(array_of(deref_json(v))) == xs@,
                    albums_read(xs@.take(i as int), out@),
                decreases xs@.len() - i,
            {
                out.push(Album::from_api(&xs[i]));
                i = i + 1;
            }
            assert(xs@.take(xs@.len() as int) =~= xs@);
        },
        None => {},
    }
    out
}

/// Artists read from the elements of an optional array (none when absent).
pub fn artists_in(v: Option<&JsonValue>) -> (r: Vec<Artist>)
    ensures
        artists_read(items(array_of(deref_json(v))), r@),
{
    let mut out: Vec<Artist> = Vec::new();
    match as_array(v) {
        Some(xs) => {
            let mut i: usize = 0;
            while i < xs.len()
                invariant
                    i <= xs@.len(),
                    items(array_of(deref_json(v))) == xs@,
                    artists_read(xs@.take(i as int), out@),
                decreases xs@.len() - i,
            {
                out.push(Artist::from_api(&xs[i]));
                i = i + 1;
            }
            assert(xs@.take(xs@.len() as int) =~= xs@);
        },
        None => {},
    }
    out
}

/// Playlists read from the elements of an optional array (none when absent).
pub fn playlists_in(v: Option<&JsonValue>) -> (r: Vec<Playlist>)
    ensures
        playlists_read(items(array_of(deref_json(v))), r@),
{
    let mut out: Vec<Playlist> = Vec::new();
    match as_array(v) {
        Some(xs) => {
            let mut i: usize = 0;
            while i < xs.len()
                invariant
                    i <= xs@.len(),
                    items(array_of(deref_json(v))) == xs@,
                    playlists_read(xs@.take(i as int), out@),
                decreases xs@.len() - i,
            {
                out.push(Playlist::from_api(&xs[i]));
                i = i + 1;
            }
            assert(xs@.take(xs@.len() as int) =~= xs@);
        },
        None => {},
    }
    out
}

/// Genres read from the elements of an optional array (none when absent).
pub fn genres_in(v: Option<&JsonValue>) -> (r: Vec<Genre>)
    ensures
        genres_read(items(array_of(deref_json(v))), r@),
{
    let mut out: Vec<Genre> = Vec::new();
    match as_array(v) {
        Some(xs) => {
            let mut i: usize = 0;
            while i < xs.len()
                invariant
                    i <= xs@.len(),
                    items(array_of(deref_json(v))) == xs@,
                    genres_read(xs@.take(i as int), out@),
                decreases xs@.len() - i,
            {
                out.push(Genre::from_api(&xs[i]));
                i = i + 1;
            }
            assert(xs@.take(xs@.len() as int) =~= xs@);
        },
        None => {},
    }
    out
}

/// The artist entries of one index entry of `getArtists`.
pub open spec fn index_artists(idx: JsonValue) -> Seq<JsonValue> {
    items(array_of(member_of(Some(idx), "artist"@)))
}

/// The artist entries of all index entries, in order.
pub open spec fn all_index_artists(indices: Seq<JsonValue>) -> Seq<JsonValue>
    decreases indices.len(),
{
    if indices.len() == 0 {
        Seq::empty()
    } else {
        all_index_artists(indices.drop_last()) + index_artists(indices.last())
    }
}

/// The artists of a `getArtists` payload: every artist of every index entry of "artists".
pub fn parse_artists(resp: Option<&JsonValue>) -> (r: Vec<Artist>)
    ensures
        artists_read(all_index_artists(items(array_of(at2(deref_json(resp), "artists"@, "index"@)))), r@),
{
    let mut result: Vec<Artist> = Vec::new();
    match as_array(member_in(member_in(resp, "artists"), "index")) {
        Some(indices) => {
            let mut i: usize = 0;
            while i < indices.len()
                invariant
                    i <= indices@.len(),
                    items(array_of(at2(deref_json(resp), "artists"@, "index"@))) == indices@,
                    artists_read(all_index_artists(indices@.take(i as int)), result@),
                decreases indices@.len() - i,
            {
                let ghost before = result@;
                let ghost done = all_index_artists(indices@.take(i as int));
                let mut more = artists_in(indices[i].member("artist"));
                let ghost added = more@;
                result.append(&mut more);
                proof {
                    assert(indices@.take(i + 1).drop_last() =~= indices@.take(i as int));
                    let next = all_index_artists(indices@.take(i + 1));
                    assert(next == done + index_artists(indices@[i as int]));
                    assert forall|k: int| 0 <= k < next.len() implies artist_from(
                        next[k],
                        #[trigger] result@[k],
                    ) by {
                        if k < done.len() {
                        } else {
                            assert(added[k - done.len()] == result@[k]);
                        }
                    }
                }
                i = i + 1;
            }
            assert(indices@.take(indices@.len() as int) =~= indices@);
        },
        None => {},
    }
    result
}

/// The songs at `outer`/`inner` of a payload.
fn songs_at(resp: Option<&JsonValue>, outer: &str, inner: &str) -> (r: Vec<Song>)
    ensures
        songs_read(items(array_of(at2(deref_json(resp), outer@, inner@))), r@),
{
    songs_in(member_in(member_in(resp, outer), inner))
}

/// The artist of a `getArtist` payload and the albums listed under it.
pub fn parse_artist(resp: Option<&JsonValue>) -> (r: (Artist, Vec<Album>))
    ensures
        artist_from(or_null(member_of(deref_json(resp), "artist"@)), r.0),
        albums_read(items(array_of(at2(deref_json(resp), "artist"@, "album"@))), r.1@),
{
    let null = JsonValue::Null;
    let data = member_in(resp, "artist");
    let artist = Artist::from_api(null_or(data, &null));
    let albums = albums_in(member_in(data, "album"));
    (artist, albums)
}

/// The album of a `getAlbum` payload and its songs.
pub fn parse_album(resp: Option<&JsonValue>) -> (r: (Album, Vec<Song>))
    ensures
        album_from(or_null(member_of(deref_json(resp), "album"@)), r.0),
        songs_read(items(array_of(at2(deref_json(resp), "album"@, "song"@))), r.1@),
{
    let null = JsonValue::Null;
    let data = member_in(resp, "album");
    let album = Album::from_api(null_or(data, &null));
    let songs = songs_in(member_in(data, "song"));
    (album, songs)
}

/// The albums of a `getAlbumList2` payload.
pub fn parse_album_list(resp: Option<&JsonValue>) -> (r: Vec<Album>)
    ensures
        albums_read(items(array_of(at2(deref_json(resp), "albumList2"@, "album"@))), r@),
{
    albums_in(member_in(member_in(resp, "albumList2"), "album"))
}

/// The song of a `getSong` payload.
pub fn parse_song(resp: Option<&JsonValue>) -> (r: Song)
    ensures
        song_from(or_null(member_of(deref_json(resp), "song"@)), r),
{
    let null = JsonValue::Null;
    Song::from_api(null_or(member_in(resp, "song"), &null))
}

/// The songs of a `getRandomSongs` payload.
pub fn parse_random_songs(resp: Option<&JsonValue>) -> (r: Vec<Song>)
    ensures
        songs_read(items(array_of(at2(deref_json(resp), "randomSongs"@, "song"@))), r@),
{
    songs_at(resp, "randomSongs", "song")
}

/// The artists, albums and songs of a `search3` payload.
pub fn parse_search(resp: Option<&JsonValue>) -> (r: (Vec<Artist>, Vec<Album>, Vec<Song>))
    ensures
        artists_read(items(array_of(at2(deref_json(resp), "searchResult3"@, "artist"@))), r.0@),
        albums_read(items(array_of(at2(deref_json(resp), "searchResult3"@, "album"@))), r.1@),
        songs_read(items(array_of(at2(deref_json(resp), "searchResult3"@, "song"@))), r.2@),
{
    let results = member_in(resp, "searchResult3");
    let artists = artists_in(member_in(results, "artist"));
    let albums = albums_in(member_in(results, "album"));
    let songs = songs_in(member_in(results, "song"));
    (artists, albums, songs)
}

/// The genres of a `getGenres` payload.
pub fn parse_genres(resp: Option<&JsonValue>) -> (r: Vec<Genre>)
    ensures
        genres_read(items(array_of(at2(deref_json(resp), "genres"@, "genre"@))), r@),
{
    genres_in(member_in(member_in(resp, "genres"), "genre"))
}

/// The songs of a `getSongsByGenre` payload.
pub fn parse_songs_by_genre(resp: Option<&JsonValue>) -> (r: Vec<Song>)
    ensures
        songs_read(items(array_of(at2(deref_json(resp), "songsByGenre"@, "song"@))), r@),
{
    songs_at(resp, "songsByGenre", "song")
}

/// The playlists of a `getPlaylists` payload.
pub fn parse_playlists(resp: Option<&JsonValue>) -> (r: Vec<Playlist>)
    ensures
        playlists_read(items(array_of(at2(deref_json(resp), "playlists"@, "playlist"@))), r@),
{
    playlists_in(member_in(member_in(resp, "playlists"), "playlist"))
}

/// The playlist of a `getPlaylist` payload and its entries.
pub fn parse_playlist(resp: Option<&JsonValue>) -> (r: (Playlist, Vec<Song>))
    ensures
        playlist_from(or_null(member_of(deref_json(resp), "playlist"@)), r.0),
        songs_read(items(array_of(at2(deref_json(resp), "playlist"@, "entry"@))), r.1@),
{
    let null = JsonValue::Null;
    let data = member_in(resp, "playlist");
    let playlist = Playlist::from_api(null_or(data, &null));
    let songs = songs_in(member_in(data, "entry"));
    (playlist, songs)
}

/// The id of the playlist a `createPlaylist` payload reports, or empty.
pub fn parse_created_playlist_id(resp: Option<&JsonValue>) -> (r: String)
    ensures
        r@ == or_text(str_of(at2(deref_json(resp), "playlist"@, "id"@)), ""@),
{
    match as_str(member_in(member_in(resp, "playlist"), "id")) {
        Some(s) => owned(s),
        None => owned(""),
    }
}

/// The starred artists, albums and songs of a `getStarred2` payload.
pub fn parse_starred(resp: Option<&JsonValue>) -> (r: (Vec<Artist>, Vec<Album>, Vec<Song>))
    ensures
        artists_read(items(array_of(at2(deref_json(resp), "starred2"@, "artist"@))), r.0@),
        albums_read(items(array_of(at2(deref_json(resp), "starred2"@, "album"@))), r.1@),
        songs_read(items(array_of(at2(deref_json(resp), "starred2"@, "song"@))), r.2@),
{
    let starred = member_in(resp, "starred2");
    let artists = artists_in(member_in(starred, "artist"));
    let albums = albums_in(member_in(starred, "album"));
    let songs = songs_in(member_in(starred, "song"));
    (artists, albums, songs)
}

/// The lyrics text of a `getLyrics` payload, or empty.
pub fn parse_lyrics(resp: Option<&JsonValue>) -> (r: String)
    ensures
        r@ == or_text(str_of(at2(deref_json(resp), "lyrics"@, "value"@)), ""@),
{
    match as_str(member_in(member_in(resp, "lyrics"), "value")) {
        Some(s) => owned(s),
        None => owned(""),
    }
}

/// The songs of a `getSimilarSongs2` payload.
pub fn parse_similar_songs(resp: Option<&JsonValue>) -> (r: Vec<Song>)
    ensures
        songs_read(items(array_of(at2(deref_json(resp), "similarSongs2"@, "song"@))), r@),
{
    songs_at(resp, "similarSongs2", "song")
}

/// The songs of a `getTopSongs` payload.
pub fn parse_top_songs(resp: Option<&JsonValue>) -> (r: Vec<Song>)
    ensures
        songs_read(items(array_of(at2(deref_json(resp), "topSongs"@, "song"@))), r@),
{
    songs_at(resp, "topSongs", "song")
}

} // verus!
