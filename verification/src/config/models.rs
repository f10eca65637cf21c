//! The entries of the configuration document: servers and equalizer presets.

use vstd::prelude::*;

use crate::json::{
    as_array, as_f64_bits, as_str, double_value, f64_bits_of, lemma_lookup_at, member,
    object_keys, or_text, or_u64, str_of, text_entry, array_of, JsonValue,
};
use crate::text::owned;

verus! {

/// A Subsonic server the user has configured; the password is stored encrypted.
#[derive(Debug, Clone)]
pub struct ServerConfig {
    pub name: String,
    pub url: String,
    pub username: String,
    pub encrypted_password: String,
}

/// A named set of equalizer gains, one per band, each as the bits of its
/// double (dB).
#[derive(Debug, Clone)]
pub struct EQPreset {
    pub name: String,
    pub gains: Vec<u64>,
}

/// The member `key` is a string with text `text`.
pub open spec fn text_member(v: JsonValue, key: Seq<char>, text: Seq<char>) -> bool {
    str_of(member(v, key)) == Some(text)
}

/// A document entry can be read as a server: name, url and username are strings.
pub open spec fn server_readable(data: JsonValue) -> bool {
    &&& str_of(member(data, "name"@)) is Some
    &&& str_of(member(data, "url"@)) is Some
    &&& str_of(member(data, "username"@)) is Some
}

/// `r` is the server read from `data`; a missing encrypted password reads as empty.
pub open spec fn server_from(data: JsonValue, r: ServerConfig) -> bool {
    &&& text_member(data, "name"@, r.name@)
    &&& text_member(data, "url"@, r.url@)
    &&& text_member(data, "username"@, r.username@)
    &&& r.encrypted_password@ == or_text(
        str_of(member(data, "_encrypted_password"@)),
        Seq::empty(),
    )
}

/// The keys of a server's entry in the document.
pub open spec fn server_keys() -> Seq<Seq<char>> {
    seq!["name"@, "url"@, "username"@, "_encrypted_password"@]
}

/// `v` is the document entry for the server `s`.
pub open spec fn server_value(v: JsonValue, s: ServerConfig) -> bool {
    &&& v is Object
    &&& object_keys(v) == server_keys()
    &&& text_member(v, "name"@, s.name@)
    &&& text_member(v, "url"@, s.url@)
    &&& text_member(v, "username"@, s.username@)
    &&& text_member(v, "_encrypted_password"@, s.encrypted_password@)
}

/// The gain a document value reads as: its double's bits, or the bits of 0.0.
pub open spec fn gain_bits(v: JsonValue) -> u64 {
    or_u64(f64_bits_of(Some(v)), 0)
}

/// The gains a list of document values reads as.
pub open spec fn gains_of(items: Seq<JsonValue>) -> Seq<u64> {
    items.map_values(|v: JsonValue| gain_bits(v))
}

/// A number written with a fraction, as doubles are.
pub open spec fn is_double(v: JsonValue) -> bool {
    v matches JsonValue::Number(n) && n.repr is Float
}

/// A document entry can be read as a preset: a string name and an array of gains.
pub open spec fn preset_readable(data: JsonValue) -> bool {
    &&& str_of(member(data, "name"@)) is Some
    &&& array_of(member(data, "gains"@)) is Some
}

/// `r` is the preset read from `data`; a gain that is not a number reads as 0.0.
pub open spec fn preset_from(data: JsonValue, r: EQPreset) -> bool {
    &&& text_member(data, "name"@, r.name@)
    &&& array_of(member(data, "gains"@)) matches Some(items) && r.gains@ == gains_of(items)
}

/// `v` is the document entry for the preset `p`.
pub open spec fn preset_value(v: JsonValue, p: EQPreset) -> bool {
    &&& v is Object
    &&& object_keys(v) == seq!["name"@, "gains"@]
    &&& text_member(v, "name"@, p.name@)
    &&& array_of(member(v, "gains"@)) matches Some(items) && gains_of(items) == p.gains@
        && forall|k: int| 0 <= k < items.len() ==> is_double(#[trigger] items[k])
}

impl ServerConfig {
    /// A field-by-field copy.
    pub fn duplicate(&self) -> (r: ServerConfig)
        ensures
            r == *self,
    {
        ServerConfig {
            name: self.name.clone(),
            url: self.url.clone(),
            username: self.username.clone(),
            encrypted_password: self.encrypted_password.clone(),
        }
    }

    /// The server's entry in the configuration document.
    pub fn to_value(&self) -> (r: JsonValue)
        ensures
            server_value(r, *self),
    {
        let mut entries: Vec<(String, JsonValue)> = Vec::new();
        entries.push(text_entry("name", self.name.as_str()));
        entries.push(text_entry("url", self.url.as_str()));
        entries.push(text_entry("username", self.username.as_str()));
        entries.push(text_entry("_encrypted_password", self.encrypted_password.as_str()));
        let r = JsonValue::Object(entries);
        proof {
            reveal_strlit("name");
            reveal_strlit("url");
            reveal_strlit("username");
            reveal_strlit("_encrypted_password");
            let e = entries@;
            assert(object_keys(r) =~= server_keys());
            assert("name"@.len() == 4 && "url"@.len() == 3 && "username"@.len() == 8);
            assert("_encrypted_password"@.len() == 19);
            lemma_lookup_at(e, "name"@, 0);
            lemma_lookup_at(e, "url"@, 1);
            lemma_lookup_at(e, "username"@, 2);
            lemma_lookup_at(e, "_encrypted_password"@, 3);
        }
        r
    }

    /// The server an entry of the document describes, when name, url and
    /// username are strings.
    pub fn from_value(data: &JsonValue) -> (r: Option<ServerConfig>)
        ensures
            r is Some <==> server_readable(*data),
            r matches Some(s) ==> server_from(*data, s),
    {
        let name = as_str(data.member("name"))?;
        let url = as_str(data.member("url"))?;
        let username = as_str(data.member("username"))?;
        let encrypted_password = match as_str(data.member("_encrypted_password")) {
            Some(p) => owned(p),
            None => String::new(),
        };
        Some(ServerConfig {
            name: owned(name),
            url: owned(url),
            username: owned(username),
            encrypted_password,
        })
    }
}

/// The gains of a list of document values (`as_f64().unwrap_or(0.0)` each).
pub fn gains_from(items: &Vec<JsonValue>) -> (r: Vec<u64>)
    ensures
        r@ == gains_of(items@),
{
    let mut out: Vec<u64> = Vec::new();
    let mut i: usize = 0;
    while i < items.len()
        invariant
            i <= items@.len(),
            out@ == gains_of(items@.take(i as int)),
        decreases items@.len() - i,
    {
        let g = match as_f64_bits(Some(&items[i])) {
            Some(b) => b,
            None => 0,
        };
        out.push(g);
        assert(gains_of(items@.take(i + 1)) =~= gains_of(items@.take(i as int)).push(
            gain_bits(items@[i as int]),
        ));
        i = i + 1;
    }
    assert(items@.take(items@.len() as int) =~= items@);
    out
}

/// The document values for a list of gains.
pub fn gain_values(gains: &Vec<u64>) -> (r: Vec<JsonValue>)
    ensures
        gains_of(r@) == gains@,
        r@.len() == gains@.len(),
        forall|k: int| 0 <= k < r@.len() ==> is_double(#[trigger] r@[k]),
{
    let mut out: Vec<JsonValue> = Vec::new();
    let mut i: usize = 0;
    while i < gains.len()
        invariant
            i <= gains@.len(),
            out@.len() == i,
            gains_of(out@) == gains@.take(i as int),
            forall|k: int| 0 <= k < out@.len() ==> is_double(#[trigger] out@[k]),
        decreases gains@.len() - i,
    {
        let v = double_value(gains[i]);
        out.push(v);
        assert(gains_of(out@) =~= gains@.take(i + 1));
        i = i + 1;
    }
    assert(gains@.take(gains@.len() as int) =~= gains@);
    out
}

impl EQPreset {
    /// A copy of the preset.
    pub fn duplicate(&self) -> (r: EQPreset)
        ensures
            r.name@ == self.name@,
            r.gains@ == self.gains@,
    {
        EQPreset { name: self.name.clone(), gains: self.gains.clone() }
    }

    /// The preset's entry in the configuration document.
    pub fn to_value(&self) -> (r: JsonValue)
        ensures
            preset_value(r, *self),
    {
        let mut entries: Vec<(String, JsonValue)> = Vec::new();
        entries.push(text_entry("name", self.name.as_str()));
        let items = gain_values(&self.gains);
        let ghost iv = items@;
        entries.push((owned("gains"), JsonValue::Array(items)));
        let r = JsonValue::Object(entries);
        proof {
            reveal_strlit("name");
            reveal_strlit("gains");
            let e = entries@;
            assert(object_keys(r) =~= seq!["name"@, "gains"@]);
            assert("name"@.len() == 4 && "gains"@.len() == 5);
            lemma_lookup_at(e, "name"@, 0);
            lemma_lookup_at(e, "gains"@, 1);
        }
        r
    }

    /// The preset an entry of the document describes, when its name is a
    /// string and its gains an array; gains that are not numbers read as 0.0.
    pub fn from_value(data: &JsonValue) -> (r: Option<EQPreset>)
        ensures
            r is Some <==> preset_readable(*data),
            r matches Some(p) ==> preset_from(*data, p),
    {
        let name = as_str(data.member("name"))?;
        let items = as_array(data.member("gains"))?;
        Some(EQPreset { name: owned(name), gains: gains_from(items) })
    }
}

} // verus!
