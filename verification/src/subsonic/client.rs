//! The Subsonic client's own logic: connection settings, URL building and
//! the request of each endpoint. Sending a request and receiving its answer
//! is left to the caller; `response` reads the answers.

use vstd::prelude::*;
use vstd::string::*;

use super::auth::{auth_pairs, auth_params, is_salt, pair, pair_views};
use super::models::Song;
use crate::text::{decimal, owned, push_char, push_decimal, str_eq, trim_end_char, trim_end};

verus! {

/// An unreserved URL byte: an ASCII letter or digit, or one of `-_.~`.
pub open spec fn is_unreserved(b: u8) -> bool {
    (65 <= b <= 90) || (97 <= b <= 122) || (48 <= b <= 57) || b == 45 || b == 95 || b == 46
        || b == 126
}

/// The uppercase hex digit for a value below 16.
pub open spec fn hex_upper_digit(d: nat) -> char {
    if d < 10 {
        ((d + 48) as u8) as char
    } else {
        ((d + 55) as u8) as char
    }
}

/// Percent-encoding of bytes: unreserved bytes stand for themselves, others
/// become "%XX" with uppercase hex.
pub open spec fn url_encode(bytes: Seq<u8>) -> Seq<char>
    decreases bytes.len(),
{
    if bytes.len() == 0 {
        Seq::empty()
    } else {
        let b = bytes.last();
        url_encode(bytes.drop_last()) + if is_unreserved(b) {
            seq![b as char]
        } else {
            seq!['%', hex_upper_digit((b / 16) as nat), hex_upper_digit((b % 16) as nat)]
        }
    }
}

/// The percent-encoding of a string's UTF-8 bytes.
pub open spec fn url_text(s: Seq<char>) -> Seq<char> {
    url_encode(vstd::utf8::encode_utf8(s))
}

/// "key=value" with both sides percent-encoded.
pub open spec fn pair_text(p: (Seq<char>, Seq<char>)) -> Seq<char> {
    url_text(p.0) + seq!['='] + url_text(p.1)
}

/// The encoded pairs joined with "&".
pub open spec fn query_text(pairs: Seq<(Seq<char>, Seq<char>)>) -> Seq<char>
    decreases pairs.len(),
{
    if pairs.len() == 0 {
        Seq::empty()
    } else if pairs.len() == 1 {
        pair_text(pairs[0])
    } else {
        query_text(pairs.drop_last()) + seq!['&'] + pair_text(pairs.last())
    }
}

fn hex_upper(d: u8) -> (c: char)
    requires
        d < 16,
    ensures
        c == hex_upper_digit(d as nat),
{
    if d < 10 {
        (d + 48) as char
    } else {
        (d + 55) as char
    }
}

/// Percent-encode a string for use in URL query parameters.
pub fn urlencod(s: &str) -> (r: String)
    ensures
        r@ == url_text(s@),
{
    let bytes = s.as_bytes();
    let mut result = String::new();
    let mut i: usize = 0;
    while i < bytes.len()
        invariant
            i <= bytes@.len(),
            bytes@ == vstd::utf8::encode_utf8(s@),
            result@ == url_encode(bytes@.take(i as int)),
        decreases bytes@.len() - i,
    {
        let b = bytes[i];
        assert(bytes@.take(i + 1).drop_last() =~= bytes@.take(i as int));
        if (65 <= b && b <= 90) || (97 <= b && b <= 122) || (48 <= b && b <= 57) || b == 45 || b
            == 95 || b == 46 || b == 126 {
            push_char(&mut result, b as char);
        } else {
            push_char(&mut result, '%');
            push_char(&mut result, hex_upper(b / 16));
            push_char(&mut result, hex_upper(b % 16));
        }
        i = i + 1;
    }
    assert(bytes@.take(bytes@.len() as int) =~= bytes@);
    result
}

/// Appends the encoded pairs joined with "&".
fn push_query(out: &mut String, pairs: &Vec<(String, String)>)
    ensures
        final(out)@ == old(out)@ + query_text(pair_views(pairs@)),
{
    let ghost start = out@;
    let mut i: usize = 0;
    while i < pairs.len()
        invariant
            i <= pairs@.len(),
            out@ == start + query_text(pair_views(pairs@).take(i as int)),
        decreases pairs@.len() - i,
    {
        let ghost views = pair_views(pairs@);
        assert(views.take(i + 1).drop_last() =~= views.take(i as int));
        assert(views.take(i + 1).last() == views[i as int]);
        if i > 0 {
            push_char(out, '&');
        }
        let k = urlencod(pairs[i].0.as_str());
        let v = urlencod(pairs[i].1.as_str());
        out.append(k.as_str());
        push_char(out, '=');
        out.append(v.as_str());
        proof {
            if i == 0 {
                assert(views.take(1) =~= seq![views[0]]);
            }
        }
        i = i + 1;
    }
    assert(pair_views(pairs@).take(pairs@.len() as int) =~= pair_views(pairs@));
}

/// The position of the first pair named `key`.
pub open spec fn key_position(p: Seq<(Seq<char>, Seq<char>)>, key: Seq<char>) -> Option<int>
    decreases p.len(),
{
    if p.len() == 0 {
        None
    } else if p[0].0 == key {
        Some(0)
    } else {
        match key_position(p.drop_first(), key) {
            Some(i) => Some(i + 1),
            None => None,
        }
    }
}

/// A parameter set after `kv` was inserted: it replaces the value under the
/// same key, or is added at the end.
pub open spec fn upserted(p: Seq<(Seq<char>, Seq<char>)>, kv: (Seq<char>, Seq<char>)) -> Seq<
    (Seq<char>, Seq<char>),
> {
    match key_position(p, kv.0) {
        Some(i) => p.update(i, kv),
        None => p.push(kv),
    }
}

/// The parameters `base` after inserting each pair of `extra` in turn.
pub open spec fn merged(base: Seq<(Seq<char>, Seq<char>)>, extra: Seq<(Seq<char>, Seq<char>)>) -> Seq<
    (Seq<char>, Seq<char>),
>
    decreases extra.len(),
{
    if extra.len() == 0 {
        base
    } else {
        upserted(merged(base, extra.drop_last()), extra.last())
    }
}

proof fn lemma_key_position(p: Seq<(Seq<char>, Seq<char>)>, key: Seq<char>, j: int)
    requires
        0 <= j <= p.len(),
        forall|k: int| 0 <= k < j ==> (#[trigger] p[k]).0 != key,
        j < p.len() ==> p[j].0 == key,
    ensures
        key_position(p, key) == if j < p.len() {
            Some(j)
        } else {
            None::<int>
        },
    decreases j,
{
    if j > 0 {
        let t = p.drop_first();
        assert forall|k: int| 0 <= k < j - 1 implies (#[trigger] t[k]).0 != key by {
            assert(t[k] == p[k + 1]);
        }
        if j < p.len() {
            assert(t[j - 1] == p[j]);
        }
        lemma_key_position(t, key, j - 1);
        assert(p[0].0 != key);
    }
}

/// Inserts a pair the way a map does: replacing the value under the same key.
fn upsert(params: &mut Vec<(String, String)>, key: String, value: String)
    ensures
        pair_views(final(params)@) == upserted(pair_views(old(params)@), (key@, value@)),
{
    let ghost v0 = pair_views(params@);
    let mut i: usize = 0;
    while i < params.len()
        invariant
            i <= params@.len(),
            params@ == old(params)@,
            v0 == pair_views(params@),
            forall|k: int| 0 <= k < i ==> (#[trigger] v0[k]).0 != key@,
        decreases params@.len() - i,
    {
        if str_eq(params[i].0.as_str(), key.as_str()) {
            proof {
                lemma_key_position(v0, key@, i as int);
            }
            let kv = (key, value);
            params.set(i, kv);
            assert(pair_views(params@) =~= v0.update(i as int, (kv.0@, kv.1@)));
            return;
        }
        i = i + 1;
    }
    proof {
        lemma_key_position(v0, key@, i as int);
    }
    params.push((key, value));
    assert(pair_views(params@) =~= v0.push((key@, value@)));
}

/// A request to one endpoint of the API, with its own parameters (the
/// authentication parameters are added when it is sent).
#[derive(Debug, Clone, PartialEq, Eq)]
pub struct ApiRequest {
    pub endpoint: String,
    pub params: Vec<(String, String)>,
}

impl ApiRequest {
    /// The request's parameters as views.
    pub open spec fn pairs(&self) -> Seq<(Seq<char>, Seq<char>)> {
        pair_views(self.params@)
    }

    fn with(endpoint: &str, params: Vec<(String, String)>) -> (r: ApiRequest)
        ensures
            r.endpoint@ == endpoint@,
            r.params@ == params@,
    {
        ApiRequest { endpoint: owned(endpoint), params }
    }

    pub fn ping() -> (r: ApiRequest)
        ensures
            r.endpoint@ == "ping.view"@,
            r.pairs() == Seq::<(Seq<char>, Seq<char>)>::empty(),
    {
        let r = Self::with("ping.view", Vec::new());
        assert(r.pairs() =~= Seq::<(Seq<char>, Seq<char>)>::empty());
        r
    }

    pub fn artists() -> (r: ApiRequest)
        ensures
            r.endpoint@ == "getArtists.view"@,
            r.pairs() == Seq::<(Seq<char>, Seq<char>)>::empty(),
    {
        let r = Self::with("getArtists.view", Vec::new());
        assert(r.pairs() =~= Seq::<(Seq<char>, Seq<char>)>::empty());
        r
    }

    pub fn artist(artist_id: &str) -> (r: ApiRequest)
        ensures
            r.endpoint@ == "getArtist.view"@,
            r.pairs() == seq![("id"@, artist_id@)],
    {
        Self::one("getArtist.view", "id", artist_id)
    }

    pub fn album(album_id: &str) -> (r: ApiRequest)
        ensures
            r.endpoint@ == "getAlbum.view"@,
            r.pairs() == seq![("id"@, album_id@)],
    {
        Self::one("getAlbum.view", "id", album_id)
    }

    fn one(endpoint: &str, key: &str, value: &str) -> (r: ApiRequest)
        ensures
            r.endpoint@ == endpoint@,
            r.pairs() == seq![(key@, value@)],
    {
        let mut params = Vec::new();
        params.push(pair(key, value));
        let r = Self::with(endpoint, params);
        assert(r.pairs() =~= seq![(key@, value@)]);
        r
    }

    fn two(endpoint: &str, k1: &str, v1: &str, k2: &str, v2: &str) -> (r: ApiRequest)
        ensures
            r.endpoint@ == endpoint@,
            r.pairs() == seq![(k1@, v1@), (k2@, v2@)],
    {
        let mut params = Vec::new();
        params.push(pair(k1, v1));
        params.push(pair(k2, v2));
        let r = Self::with(endpoint, params);
        assert(r.pairs() =~= seq![(k1@, v1@), (k2@, v2@)]);
        r
    }

    fn three(endpoint: &str, k1: &str, v1: &str, k2: &str, v2: &str, k3: &str, v3: &str) -> (r:
        ApiRequest)
        ensures
            r.endpoint@ == endpoint@,
            r.pairs() == seq![(k1@, v1@), (k2@, v2@), (k3@, v3@)],
    {
        let mut params = Vec::new();
        params.push(pair(k1, v1));
        params.push(pair(k2, v2));
        params.push(pair(k3, v3));
        let r = Self::with(endpoint, params);
        assert(r.pairs() =~= seq![(k1@, v1@), (k2@, v2@), (k3@, v3@)]);
        r
    }

    pub fn album_list(list_type: &str, size: u32, offset: u32) -> (r: ApiRequest)
        ensures
            r.endpoint@ == "getAlbumList2.view"@,
            r.pairs() == seq![
                ("type"@, list_type@),
                ("size"@, decimal(size as nat)),
                ("offset"@, decimal(offset as nat)),
            ],
    {
        let size_str = crate::text::u64_to_string(size as u64);
        let offset_str = crate::text::u64_to_string(offset as u64);
        Self::three(
            "getAlbumList2.view",
            "type",
            list_type,
            "size",
            size_str.as_str(),
            "offset",
            offset_str.as_str(),
        )
    }

    pub fn song(song_id: &str) -> (r: ApiRequest)
        ensures
            r.endpoint@ == "getSong.view"@,
            r.pairs() == seq![("id"@, song_id@)],
    {
        Self::one("getSong.view", "id", song_id)
    }

    /// Random songs; the genre is sent only when it is not empty.
    pub fn random_songs(size: u32, genre: &str) -> (r: ApiRequest)
        ensures
            r.endpoint@ == "getRandomSongs.view"@,
            r.pairs() == if genre@.len() == 0 {
                seq![("size"@, decimal(size as nat))]
            } else {
                seq![("size"@, decimal(size as nat)), ("genre"@, genre@)]
            },
    {
        let size_str = crate::text::u64_to_string(size as u64);
        if genre.is_empty() {
            Self::one("getRandomSongs.view", "size", size_str.as_str())
        } else {
            Self::two("getRandomSongs.view", "size", size_str.as_str(), "genre", genre)
        }
    }

    pub fn search(query: &str, artist_count: u32, album_count: u32, song_count: u32) -> (r:
        ApiRequest)
        ensures
            r.endpoint@ == "search3.view"@,
            r.pairs() == seq![
                ("query"@, query@),
                ("artistCount"@, decimal(artist_count as nat)),
                ("albumCount"@, decimal(album_count as nat)),
                ("songCount"@, decimal(song_count as nat)),
            ],
    {
        let ac = crate::text::u64_to_string(artist_count as u64);
        let alc = crate::text::u64_to_string(album_count as u64);
        let sc = crate::text::u64_to_string(song_count as u64);
        let mut params = Vec::new();
        params.push(pair("query", query));
        params.push(pair("artistCount", ac.as_str()));
        params.push(pair("albumCount", alc.as_str()));
        params.push(pair("songCount", sc.as_str()));
        let r = Self::with("search3.view", params);
        assert(r.pairs() =~= seq![
            ("query"@, query@),
            ("artistCount"@, decimal(artist_count as nat)),
            ("albumCount"@, decimal(album_count as nat)),
            ("songCount"@, decimal(song_count as nat)),
        ]);
        r
    }

    pub fn genres() -> (r: ApiRequest)
        ensures
            r.endpoint@ == "getGenres.view"@,
            r.pairs() == Seq::<(Seq<char>, Seq<char>)>::empty(),
    {
        let r = Self::with("getGenres.view", Vec::new());
        assert(r.pairs() =~= Seq::<(Seq<char>, Seq<char>)>::empty());
        r
    }

    pub fn songs_by_genre(genre: &str, count: u32, offset: u32) -> (r: ApiRequest)
        ensures
            r.endpoint@ == "getSongsByGenre.view"@,
            r.pairs() == seq![
                ("genre"@, genre@),
                ("count"@, decimal(count as nat)),
                ("offset"@, decimal(offset as nat)),
            ],
    {
        let count_str = crate::text::u64_to_string(count as u64);
        let offset_str = crate::text::u64_to_string(offset as u64);
        Self::three(
            "getSongsByGenre.view",
            "genre",
            genre,
            "count",
            count_str.as_str(),
            "offset",
            offset_str.as_str(),
        )
    }

    pub fn playlists() -> (r: ApiRequest)
        ensures
            r.endpoint@ == "getPlaylists.view"@,
            r.pairs() == Seq::<(Seq<char>, Seq<char>)>::empty(),
    {
        let r = Self::with("getPlaylists.view", Vec::new());
        assert(r.pairs() =~= Seq::<(Seq<char>, Seq<char>)>::empty());
        r
    }

    pub fn playlist(playlist_id: &str) -> (r: ApiRequest)
        ensures
            r.endpoint@ == "getPlaylist.view"@,
            r.pairs() == seq![("id"@, playlist_id@)],
    {
        Self::one("getPlaylist.view", "id", playlist_id)
    }

    /// A new playlist: the name, then one "songId" pair per song.
    pub fn create_playlist(name: &str, song_ids: &[&str]) -> (r: ApiRequest)
        ensures
            r.endpoint@ == "createPlaylist.view"@,
            r.pairs().len() == song_ids@.len() + 1,
            r.pairs()[0] == ("name"@, name@),
            forall|i: int|
                0 <= i < song_ids@.len() ==> #[trigger] r.pairs()[i + 1] == ("songId"@, song_ids@[i]@),
    {
        let mut params = Vec::new();
        params.push(pair("name", name));
        let mut i: usize = 0;
        while i < song_ids.len()
            invariant
                i <= song_ids@.len(),
                params@.len() == i + 1,
                params@[0].0@ == "name"@,
                params@[0].1@ == name@,
                forall|k: int|
                    0 <= k < i ==> (#[trigger] params@[k + 1]).0@ == "songId"@ && params@[k
                        + 1].1@ == song_ids@[k]@,
            decreases song_ids@.len() - i,
        {
            params.push(pair("songId", song_ids[i]));
            i = i + 1;
        }
        let r = Self::with("createPlaylist.view", params);
        assert forall|i: int| 0 <= i < song_ids@.len() implies #[trigger] r.pairs()[i + 1] == (
            "songId"@,
            song_ids@[i]@,
        ) by {
            assert(r.params@[i + 1].0@ == "songId"@);
        }
        r
    }

    /// A new playlist holding the given songs, in order.
    pub fn create_playlist_of(name: &str, songs: &[Song]) -> (r: ApiRequest)
        ensures
            r.endpoint@ == "createPlaylist.view"@,
            r.pairs().len() == songs@.len() + 1,
            r.pairs()[0] == ("name"@, name@),
            forall|i: int|
                0 <= i < songs@.len() ==> #[trigger] r.pairs()[i + 1] == ("songId"@, songs@[i].id@),
    {
        let mut ids: Vec<&str> = Vec::new();
        let mut i: usize = 0;
        while i < songs.len()
            invariant
                i <= songs@.len(),
                ids@.len() == i,
                forall|k: int| 0 <= k < i ==> (#[trigger] ids@[k])@ == songs@[k].id@,
            decreases songs@.len() - i,
        {
            ids.push(songs[i].id.as_str());
            i = i + 1;
        }
        Self::create_playlist(name, ids.as_slice())
    }

    pub fn starred() -> (r: ApiRequest)
        ensures
            r.endpoint@ == "getStarred2.view"@,
            r.pairs() == Seq::<(Seq<char>, Seq<char>)>::empty(),
    {
        let r = Self::with("getStarred2.view", Vec::new());
        assert(r.pairs() =~= Seq::<(Seq<char>, Seq<char>)>::empty());
        r
    }

    pub fn star(id: &str) -> (r: ApiRequest)
        ensures
            r.endpoint@ == "star.view"@,
            r.pairs() == seq![("id"@, id@)],
    {
        Self::one("star.view", "id", id)
    }

    pub fn unstar(id: &str) -> (r: ApiRequest)
        ensures
            r.endpoint@ == "unstar.view"@,
            r.pairs() == seq![("id"@, id@)],
    {
        Self::one("unstar.view", "id", id)
    }

    /// A play report: a finished listen when `submission`, "now playing" otherwise.
    pub fn scrobble(song_id: &str, submission: bool) -> (r: ApiRequest)
        ensures
            r.endpoint@ == "scrobble.view"@,
            r.pairs() == seq![
                ("id"@, song_id@),
                ("submission"@, if submission {
                    "true"@
                } else {
                    "false"@
                }),
            ],
    {
        let sub_str = if submission {
            "true"
        } else {
            "false"
        };
        Self::two("scrobble.view", "id", song_id, "submission", sub_str)
    }

    /// The "now playing" report for a song.
    pub fn now_playing(song_id: &str) -> (r: ApiRequest)
        ensures
            r.endpoint@ == "scrobble.view"@,
            r.pairs() == seq![("id"@, song_id@), ("submission"@, "false"@)],
    {
        Self::scrobble(song_id, false)
    }

    /// Lyrics of a song; artist and title are sent only when not empty.
    pub fn lyrics(artist: &str, title: &str) -> (r: ApiRequest)
        ensures
            r.endpoint@ == "getLyrics.view"@,
            r.pairs() == if artist@.len() == 0 {
                Seq::<(Seq<char>, Seq<char>)>::empty()
            } else {
                seq![("artist"@, artist@)]
            } + if title@.len() == 0 {
                Seq::<(Seq<char>, Seq<char>)>::empty()
            } else {
                seq![("title"@, title@)]
            },
    {
        let mut params = Vec::new();
        if !artist.is_empty() {
            params.push(pair("artist", artist));
        }
        if !title.is_empty() {
            params.push(pair("title", title));
        }
        let r = Self::with("getLyrics.view", params);
        assert(r.pairs() =~= if artist@.len() == 0 {
            Seq::<(Seq<char>, Seq<char>)>::empty()
        } else {
            seq![("artist"@, artist@)]
        } + if title@.len() == 0 {
            Seq::<(Seq<char>, Seq<char>)>::empty()
        } else {
            seq![("title"@, title@)]
        });
        r
    }

    pub fn similar_songs(song_id: &str, count: u32) -> (r: ApiRequest)
        ensures
            r.endpoint@ == "getSimilarSongs2.view"@,
            r.pairs() == seq![("id"@, song_id@), ("count"@, decimal(count as nat))],
    {
        let count_str = crate::text::u64_to_string(count as u64);
        Self::two("getSimilarSongs2.view", "id", song_id, "count", count_str.as_str())
    }

    pub fn top_songs(artist_name: &str, count: u32) -> (r: ApiRequest)
        ensures
            r.endpoint@ == "getTopSongs.view"@,
            r.pairs() == seq![("artist"@, artist_name@), ("count"@, decimal(count as nat))],
    {
        let count_str = crate::text::u64_to_string(count as u64);
        Self::two("getTopSongs.view", "artist", artist_name, "count", count_str.as_str())
    }
}

/// The connection settings of a Subsonic server.
pub struct SubsonicClient {
    base_url: String,
    username: String,
    password: String,
}

impl SubsonicClient {
    /// The server address, without trailing slashes.
    pub closed spec fn base(&self) -> Seq<char> {
        self.base_url@
    }

    pub closed spec fn user(&self) -> Seq<char> {
        self.username@
    }

    pub closed spec fn secret(&self) -> Seq<char> {
        self.password@
    }

    pub fn new(base_url: &str, username: &str, password: &str) -> (r: Self)
        ensures
            r.base() == trim_end(base_url@, '/'),
            r.user() == username@,
            r.secret() == password@,
    {
        SubsonicClient {
            base_url: trim_end_char(base_url, '/'),
            username: owned(username),
            password: owned(password),
        }
    }

    pub fn base_url(&self) -> (r: &str)
        ensures
            r@ == self.base(),
    {
        self.base_url.as_str()
    }

    pub fn username(&self) -> (r: &str)
        ensures
            r@ == self.user(),
    {
        self.username.as_str()
    }

    pub fn password(&self) -> (r: &str)
        ensures
            r@ == self.secret(),
    {
        self.password.as_str()
    }

    /// Fresh authentication parameters for this server's account.
    pub fn auth(&self) -> (r: Vec<(String, String)>)
        ensures
            is_salt(r@[2].1@),
            pair_views(r@) == auth_pairs(self.user(), self.secret(), r@[2].1@),
    {
        auth_params(self.username.as_str(), self.password.as_str())
    }

    /// The address a request to `endpoint` goes to.
    pub fn endpoint_url(&self, endpoint: &str) -> (r: String)
        ensures
            r@ == self.base() + "/rest/"@ + endpoint@,
    {
        let mut s = self.base_url.clone();
        s.append("/rest/");
        s.append(endpoint);
        s
    }

    /// The query parameters of a request: the authentication parameters with
    /// the request's own inserted after them, a later pair replacing an
    /// earlier one under the same key.
    pub fn query_params(&self, request: &ApiRequest) -> (r: Vec<(String, String)>)
        ensures
            exists|salt: Seq<char>|
                #[trigger] is_salt(salt) && pair_views(r@) == merged(
                    auth_pairs(self.user(), self.secret(), salt),
                    request.pairs(),
                ),
    {
        let mut params = self.auth();
        let ghost salt = params@[2].1@;
        let ghost base = pair_views(params@);
        let mut i: usize = 0;
        while i < request.params.len()
            invariant
                i <= request.params@.len(),
                pair_views(params@) == merged(base, request.pairs().take(i as int)),
            decreases request.params@.len() - i,
        {
            let kv = &request.params[i];
            upsert(&mut params, kv.0.clone(), kv.1.clone());
            assert(request.pairs().take(i + 1).drop_last() =~= request.pairs().take(i as int));
            i = i + 1;
        }
        assert(request.pairs().take(request.params@.len() as int) =~= request.pairs());
        assert(is_salt(salt));
        params
    }

    /// The stream address of a song with the given authentication parameters.
    pub fn stream_url_with(&self, auth: &Vec<(String, String)>, song_id: &str) -> (r: String)
        ensures
            r@ == self.base() + "/rest/stream.view?"@ + query_text(pair_views(auth@)) + "&id="@
                + url_text(song_id@) + "&format=raw"@,
    {
        let mut s = self.base_url.clone();
        s.append("/rest/stream.view?");
        push_query(&mut s, auth);
        s.append("&id=");
        let id = urlencod(song_id);
        s.append(id.as_str());
        s.append("&format=raw");
        s
    }

    /// The stream address of a song, with fresh authentication parameters.
    pub fn stream_url(&self, song_id: &str) -> (r: String)
        ensures
            exists|salt: Seq<char>|
                #[trigger] is_salt(salt) && r@ == self.base() + "/rest/stream.view?"@ + query_text(
                    auth_pairs(self.user(), self.secret(), salt),
                ) + "&id="@ + url_text(song_id@) + "&format=raw"@,
    {
        let params = self.auth();
        let r = self.stream_url_with(&params, song_id);
        assert(is_salt(params@[2].1@));
        r
    }

    /// The cover address with the given authentication parameters; empty for an empty id.
    pub fn cover_art_url_with(&self, auth: &Vec<(String, String)>, cover_id: &str, size: u32) -> (r:
        String)
        ensures
            r@ == if cover_id@.len() == 0 {
                Seq::empty()
            } else {
                self.base() + "/rest/getCoverArt.view?"@ + query_text(pair_views(auth@)) + "&id="@
                    + url_text(cover_id@) + "&size="@ + decimal(size as nat)
            },
    {
        if cover_id.is_empty() {
            return String::new();
        }
        let mut s = self.base_url.clone();
        s.append("/rest/getCoverArt.view?");
        push_query(&mut s, auth);
        s.append("&id=");
        let id = urlencod(cover_id);
        s.append(id.as_str());
        s.append("&size=");
        push_decimal(&mut s, size as u64);
        s
    }

    /// The cover address of an item, with fresh authentication parameters;
    /// empty for an empty id.
    pub fn cover_art_url(&self, cover_id: &str, size: u32) -> (r: String)
        ensures
            cover_id@.len() == 0 ==> r@.len() == 0,
            cover_id@.len() > 0 ==> exists|salt: Seq<char>|
                #[trigger] is_salt(salt) && r@ == self.base() + "/rest/getCoverArt.view?"@
                    + query_text(auth_pairs(self.user(), self.secret(), salt)) + "&id="@ + url_text(
                    cover_id@,
                ) + "&size="@ + decimal(size as nat),
    {
        if cover_id.is_empty() {
            return String::new();
        }
        let params = self.auth();
        let r = self.cover_art_url_with(&params, cover_id, size);
        assert(is_salt(params@[2].1@));
        r
    }
}

} // verus!
