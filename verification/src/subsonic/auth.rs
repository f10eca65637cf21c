//! Subsonic token authentication: every request carries the user name, a
//! random salt and the MD5 of password and salt, in lowercase hex.

use md5::{Digest, Md5};
use rand::Rng;
use vstd::prelude::*;

use crate::text::{owned, push_char};

verus! {

pub const API_VERSION: &'static str = "1.16.1";

pub const CLIENT_NAME: &'static str = "CLIMusicPlayer";

/// The MD5 digest of a byte string.
pub uninterp spec fn md5_digest(data: Seq<u8>) -> Seq<u8>;

/// The lowercase hex digit for a value below 16.
pub open spec fn hex_lower_digit(d: nat) -> char {
    if d < 10 {
        ((d + 48) as u8) as char
    } else {
        ((d + 87) as u8) as char
    }
}

/// Bytes as lowercase hex, two digits per byte, high nibble first.
pub open spec fn hex_lower(data: Seq<u8>) -> Seq<char>
    decreases data.len(),
{
    if data.len() == 0 {
        Seq::empty()
    } else {
        hex_lower(data.drop_last()) + seq![
            hex_lower_digit((data.last() / 16) as nat),
            hex_lower_digit((data.last() % 16) as nat),
        ]
    }
}

/// A lowercase hex digit.
pub open spec fn is_hex_lower_digit(c: char) -> bool {
    ('0' <= c && c <= '9') || ('a' <= c && c <= 'f')
}

/// Hex text has two lowercase hex digits per byte.
proof fn lemma_hex_lower_shape(data: Seq<u8>)
    ensures
        hex_lower(data).len() == 2 * data.len(),
        forall|i: int| 0 <= i < hex_lower(data).len() ==> is_hex_lower_digit(#[trigger] hex_lower(data)[i]),
    decreases data.len(),
{
    if data.len() > 0 {
        lemma_hex_lower_shape(data.drop_last());
        let hi = (data.last() / 16) as nat;
        let lo = (data.last() % 16) as nat;
        assert(is_hex_lower_digit(hex_lower_digit(hi)));
        assert(is_hex_lower_digit(hex_lower_digit(lo)));
        let prev = hex_lower(data.drop_last());
        assert forall|i: int| 0 <= i < hex_lower(data).len() implies is_hex_lower_digit(
            #[trigger] hex_lower(data)[i],
        ) by {
            if i < prev.len() {
                assert(hex_lower(data)[i] == prev[i]);
            }
        }
    }
}

/// An ASCII letter or digit.
pub open spec fn is_alphanumeric(c: char) -> bool {
    ('A' <= c && c <= 'Z') || ('a' <= c && c <= 'z') || ('0' <= c && c <= '9')
}

/// A salt as the library makes them: 32 ASCII letters and digits.
pub open spec fn is_salt(s: Seq<char>) -> bool {
    s.len() == 32 && forall|i: int| 0 <= i < s.len() ==> is_alphanumeric(#[trigger] s[i])
}

/// The token for a password and a salt: the lowercase hex MD5 of their concatenation.
pub open spec fn auth_token(password: Seq<char>, salt: Seq<char>) -> Seq<char> {
    hex_lower(md5_digest(vstd::utf8::encode_utf8(password + salt)))
}

/// The authentication parameters, in the order the library sends them.
pub open spec fn auth_pairs(username: Seq<char>, password: Seq<char>, salt: Seq<char>) -> Seq<
    (Seq<char>, Seq<char>),
> {
    seq![
        ("u"@, username),
        ("t"@, auth_token(password, salt)),
        ("s"@, salt),
        ("v"@, API_VERSION@),
        ("c"@, CLIENT_NAME@),
        ("f"@, "json"@),
    ]
}

/// The views of a list of string pairs.
pub open spec fn pair_views(p: Seq<(String, String)>) -> Seq<(Seq<char>, Seq<char>)> {
    p.map_values(|x: (String, String)| (x.0@, x.1@))
}

/// The MD5 digest of `data` (`md5::Md5` from the `md-5` crate: new, update,
/// finalize). The digest is named, not stated; its length, 16 bytes, is the
/// algorithm's output size.
#[verifier::external_body]
fn md5(data: &[u8]) -> (r: Vec<u8>)
    ensures
        r@ == md5_digest(data@),
        r@.len() == 16,
{
    let mut hasher = Md5::new();
    hasher.update(data);
    hasher.finalize().to_vec()
}

/// Lowercase hex of the bytes (`hex::encode`).
#[verifier::external_body]
fn hex_encode(data: &[u8]) -> (r: String)
    ensures
        r@ == hex_lower(data@),
{
    hex::encode(data)
}

/// One character drawn from `rand`'s `Alphanumeric` distribution on the
/// thread-local generator: an ASCII letter or digit. Which one is left to
/// chance and not stated.
#[verifier::external_body]
fn random_alphanumeric() -> (c: char)
    ensures
        is_alphanumeric(c),
{
    char::from(rand::thread_rng().sample(rand::distributions::Alphanumeric))
}

/// A fresh salt of 32 random ASCII letters and digits.
fn random_salt() -> (r: String)
    ensures
        is_salt(r@),
{
    let mut s = String::new();
    let mut i: usize = 0;
    while i < 32
        invariant
            i <= 32,
            s@.len() == i,
            forall|k: int| 0 <= k < s@.len() ==> is_alphanumeric(#[trigger] s@[k]),
        decreases 32 - i,
    {
        let c = random_alphanumeric();
        push_char(&mut s, c);
        i = i + 1;
    }
    s
}

/// A pair of owned strings.
pub fn pair(k: &str, v: &str) -> (r: (String, String))
    ensures
        r.0@ == k@,
        r.1@ == v@,
{
    (owned(k), owned(v))
}

/// Generate authentication parameters using the token+salt method: the pairs
/// of `auth_pairs` for a fresh random salt.
pub fn auth_params(username: &str, password: &str) -> (r: Vec<(String, String)>)
    ensures
        is_salt(r@[2].1@),
        pair_views(r@) == auth_pairs(username@, password@, r@[2].1@),
        r@[1].1@.len() == 32,
        forall|i: int| 0 <= i < 32 ==> is_hex_lower_digit(#[trigger] r@[1].1@[i]),
{
    let salt = random_salt();
    let mut salted = owned(password);
    salted.append(salt.as_str());
    let digest = md5(salted.as_str().as_bytes());
    let token = hex_encode(digest.as_slice());
    proof {
        lemma_hex_lower_shape(digest@);
    }
    let mut params: Vec<(String, String)> = Vec::new();
    params.push(pair("u", username));
    params.push((owned("t"), token));
    params.push((owned("s"), salt));
    params.push(pair("v", API_VERSION));
    params.push(pair("c", CLIENT_NAME));
    params.push(pair("f", "json"));
    assert(pair_views(params@) =~= auth_pairs(username@, password@, params@[2].1@));
    params
}

} // verus!
