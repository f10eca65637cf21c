//! Password protection for the configuration file: a key derived from the
//! machine's identity with PBKDF2-HMAC-SHA256, AES-256-GCM under a random
//! 96-bit nonce, and standard base64 of nonce followed by ciphertext.

use aes_gcm::aead::{Aead, KeyInit, OsRng};
use aes_gcm::{AeadCore, Aes256Gcm, Key, Nonce};
use base64::Engine;
use vstd::prelude::*;
use vstd::utf8::{decode_utf8, encode_utf8, valid_utf8};

use crate::text::owned;

verus! {

/// PBKDF2 rounds for the key derivation.
pub const ITERATIONS: u32 = 100_000;

/// The salt text for the key derivation.
pub const SALT_TEXT: &'static str = "cli-music-player-salt-v1";

/// Length of the nonce that leads the stored bytes.
pub const NONCE_LEN: usize = 12;

/// The error for stored bytes that cannot be opened with the key.
pub const DECRYPT_FAILED: &'static str =
    "Cannot decrypt password. This may happen if the password was encrypted on a different machine. Please re-enter your password.";

/// PBKDF2 with HMAC-SHA256 of a password and salt over a number of rounds, 32 bytes.
pub uninterp spec fn pbkdf2_hmac_sha256(password: Seq<u8>, salt: Seq<u8>, rounds: u32) -> Seq<u8>;

/// AES-256-GCM encryption of a plaintext under a key and nonce: the ciphertext
/// followed by the 16-byte tag.
pub uninterp spec fn aes256gcm_sealed(key: Seq<u8>, nonce: Seq<u8>, plaintext: Seq<u8>) -> Seq<u8>;

/// AES-256-GCM decryption: the plaintext, or `None` where the tag does not
/// authenticate the bytes under the key and nonce.
pub uninterp spec fn aes256gcm_opened(key: Seq<u8>, nonce: Seq<u8>, sealed: Seq<u8>) -> Option<
    Seq<u8>,
>;

/// Standard base64 (padded) of a byte string.
pub uninterp spec fn base64_encoding(data: Seq<u8>) -> Seq<char>;

/// Standard base64 decoding of a text: the bytes, or the decoder's error message.
pub uninterp spec fn base64_decoding(text: Seq<char>) -> Result<Seq<u8>, Seq<char>>;

/// The message of the error for bytes that are not valid UTF-8.
pub uninterp spec fn utf8_error_text(bytes: Seq<u8>) -> Seq<char>;

/// Decoding `text` gives `data` back.
pub open spec fn base64_round_trip(text: Seq<char>, data: Seq<u8>) -> bool {
    base64_decoding(text) == Ok::<Seq<u8>, Seq<char>>(data)
}

/// The machine identity the key is derived from: `host:user`.
pub open spec fn machine_id(nodename: Seq<char>, username: Seq<char>) -> Seq<char> {
    nodename + seq![':'] + username
}

/// The key for a machine identity.
pub open spec fn machine_key(nodename: Seq<char>, username: Seq<char>) -> Seq<u8> {
    pbkdf2_hmac_sha256(
        encode_utf8(machine_id(nodename, username)),
        encode_utf8(SALT_TEXT@),
        ITERATIONS,
    )
}

/// `text` is what encrypting `password` under `key` gives for some nonce.
pub open spec fn is_encryption_of(key: Seq<u8>, password: Seq<char>, text: Seq<char>) -> bool {
    exists|nonce: Seq<u8>|
        nonce.len() == NONCE_LEN && text == base64_encoding(
            nonce + #[trigger] aes256gcm_sealed(key, nonce, encode_utf8(password)),
        )
}

/// What decrypting `text` under `key` gives: the password, or the message of
/// the first step that fails (base64, length, authentication, UTF-8).
pub open spec fn decryption(key: Seq<u8>, text: Seq<char>) -> Result<Seq<char>, Seq<char>> {
    match base64_decoding(text) {
        Err(e) => Err("base64 decode error: "@ + e),
        Ok(bytes) => if bytes.len() < NONCE_LEN {
            Err("encrypted data too short"@)
        } else {
            match aes256gcm_opened(
                key,
                bytes.take(NONCE_LEN as int),
                bytes.skip(NONCE_LEN as int),
            ) {
                None => Err(DECRYPT_FAILED@),
                Some(plain) => if valid_utf8(plain) {
                    Ok(decode_utf8(plain))
                } else {
                    Err("utf8 decode error: "@ + utf8_error_text(plain))
                },
            }
        },
    }
}

/// The view of a result of strings.
pub open spec fn result_view(r: Result<String, String>) -> Result<Seq<char>, Seq<char>> {
    match r {
        Ok(s) => Ok(s@),
        Err(e) => Err(e@),
    }
}

/// `pbkdf2::pbkdf2_hmac_array::<sha2::Sha256, 32>`: the derived key is named,
/// not stated.
#[verifier::external_body]
fn pbkdf2_sha256(password: &[u8], salt: &[u8], rounds: u32) -> (r: [u8; 32])
    ensures
        r@ == pbkdf2_hmac_sha256(password@, salt@, rounds),
{
    pbkdf2::pbkdf2_hmac_array::<sha2::Sha256, 32>(password, salt, rounds)
}

/// A fresh nonce from the operating system's generator
/// (`Aes256Gcm::generate_nonce(&mut OsRng)`): 12 bytes; which bytes is left
/// to chance and not stated.
#[verifier::external_body]
fn random_nonce() -> (r: Vec<u8>)
    ensures
        r@.len() == NONCE_LEN,
{
    Aes256Gcm::generate_nonce(&mut OsRng).to_vec()
}

/// `Aes256Gcm::encrypt` with no associated data. The ciphertext is named; of
/// it the contract states its length (plaintext and a 16-byte tag) and that
/// decryption under the same key and nonce gives the plaintext back. The
/// crate refuses plaintexts over 2^36 bytes, left out here.
#[verifier::external_body]
fn seal(key: &[u8; 32], nonce: &[u8], plaintext: &[u8]) -> (r: Vec<u8>)
    requires
        nonce@.len() == NONCE_LEN,
        plaintext@.len() <= 0x10_0000_0000,
    ensures
        r@ == aes256gcm_sealed(key@, nonce@, plaintext@),
        r@.len() == plaintext@.len() + 16,
        aes256gcm_opened(key@, nonce@, r@) == Some(plaintext@),
{
    let cipher = Aes256Gcm::new(Key::<Aes256Gcm>::from_slice(key));
    cipher.encrypt(Nonce::from_slice(nonce), plaintext).expect("plaintext within the AES-GCM limit")
}

/// `Aes256Gcm::decrypt` with no associated data: the plaintext, or `None`
/// when authentication fails; named, not stated.
#[verifier::external_body]
fn open(key: &[u8; 32], nonce: &[u8], sealed: &[u8]) -> (r: Option<Vec<u8>>)
    requires
        nonce@.len() == NONCE_LEN,
    ensures
        match r {
            Some(p) => aes256gcm_opened(key@, nonce@, sealed@) == Some(p@),
            None => aes256gcm_opened(key@, nonce@, sealed@) is None,
        },
{
    let cipher = Aes256Gcm::new(Key::<Aes256Gcm>::from_slice(key));
    cipher.decrypt(Nonce::from_slice(nonce), sealed).ok()
}

/// `base64::engine::general_purpose::STANDARD.encode`: the text is named; the
/// contract states its padded length (four characters per started group of
/// three bytes) and that the same engine decodes it back to the bytes. The
/// crate panics where that length overflows `usize`, left out here.
#[verifier::external_body]
fn base64_encode(data: &[u8]) -> (r: String)
    requires
        data@.len() <= 0x20_0000_0000,
    ensures
        r@ == base64_encoding(data@),
        r@.len() == 4 * ((data@.len() + 2) / 3),
        base64_round_trip(r@, data@),
{
    base64::engine::general_purpose::STANDARD.encode(data)
}

/// `base64::engine::general_purpose::STANDARD.decode`, with the error as its
/// message; named, not stated.
#[verifier::external_body]
fn base64_decode(text: &str) -> (r: Result<Vec<u8>, String>)
    ensures
        match r {
            Ok(b) => base64_decoding(text@) matches Ok(d) && d == b@,
            Err(e) => base64_decoding(text@) matches Err(m) && m == e@,
        },
{
    match base64::engine::general_purpose::STANDARD.decode(text) {
        Ok(bytes) => Ok(bytes),
        Err(e) => Err(e.to_string()),
    }
}

/// `String::from_utf8`: the text the bytes encode when they are valid UTF-8,
/// else the error's message (named).
#[verifier::external_body]
fn string_from_utf8(bytes: Vec<u8>) -> (r: Result<String, String>)
    ensures
        match r {
            Ok(s) => valid_utf8(bytes@) && s@ == decode_utf8(bytes@),
            Err(e) => !valid_utf8(bytes@) && e@ == utf8_error_text(bytes@),
        },
{
    match String::from_utf8(bytes) {
        Ok(s) => Ok(s),
        Err(e) => Err(e.to_string()),
    }
}

/// Derive the encryption key from the machine's host name and user name
/// (PBKDF2-HMAC-SHA256 of `host:user` with the fixed salt).
pub fn derive_key(nodename: &str, username: &str) -> (r: [u8; 32])
    ensures
        r@ == machine_key(nodename@, username@),
{
    let mut id = owned(nodename);
    id.append(":");
    id.append(username);
    proof {
        reveal_strlit(":");
    }
    assert(id@ =~= machine_id(nodename@, username@));
    pbkdf2_sha256(id.as_str().as_bytes(), SALT_TEXT.as_bytes(), ITERATIONS)
}

/// Encrypt a password for config storage. Returns base64-encoded
/// nonce+ciphertext; decrypting it under the same key gives the password back.
pub fn encrypt_password(password: &str, key: &[u8; 32]) -> (r: String)
    requires
        encode_utf8(password@).len() <= 0x10_0000_0000,
    ensures
        r@.len() > 0,
        is_encryption_of(key@, password@, r@),
        decryption(key@, r@) matches Ok(p) && p == password@,
{
    let plain = password.as_bytes();
    let mut combined = random_nonce();
    let ghost nonce = combined@;
    let mut sealed = seal(key, combined.as_slice(), plain);
    let ghost ct = sealed@;
    combined.append(&mut sealed);
    let r = base64_encode(combined.as_slice());
    proof {
        assert(combined@ == nonce + ct);
        assert(combined@.take(NONCE_LEN as int) =~= nonce);
        assert(combined@.skip(NONCE_LEN as int) =~= ct);
        vstd::utf8::encode_utf8_valid_utf8(password@);
        vstd::utf8::encode_utf8_decode_utf8(password@);
    }
    r
}

/// Decrypt a stored password; each failure is reported with its message.
pub fn decrypt_password(encrypted: &str, key: &[u8; 32]) -> (r: Result<String, String>)
    ensures
        result_view(r) == decryption(key@, encrypted@),
{
    let mut combined = match base64_decode(encrypted) {
        Ok(bytes) => bytes,
        Err(e) => {
            let mut msg = owned("base64 decode error: ");
            msg.append(e.as_str());
            return Err(msg);
        },
    };
    if combined.len() < NONCE_LEN {
        return Err(owned("encrypted data too short"));
    }
    let ghost all = combined@;
    let sealed = combined.split_off(NONCE_LEN);
    assert(combined@ =~= all.take(NONCE_LEN as int));
    assert(sealed@ =~= all.skip(NONCE_LEN as int));
    match open(key, combined.as_slice(), sealed.as_slice()) {
        None => Err(owned(DECRYPT_FAILED)),
        Some(plain) => match string_from_utf8(plain) {
            Ok(s) => Ok(s),
            Err(e) => {
                let mut msg = owned("utf8 decode error: ");
                msg.append(e.as_str());
                Err(msg)
            },
        },
    }
}

} // verus!
