//! Application configuration: servers with their stored passwords, equalizer
//! presets and playback settings, as read from and written to the
//! configuration document.

pub mod crypto;
pub mod models;
pub mod presets;

use vstd::prelude::*;
use vstd::utf8::encode_utf8;

use crate::config::crypto::{decrypt_password, decryption, encrypt_password, is_encryption_of};
use crate::config::models::{
    gain_values, gains_from, gains_of, preset_from, preset_readable, preset_value, server_from,
    server_readable, server_value, text_member, EQPreset, ServerConfig,
};
use crate::config::presets::{
    default_eq_presets, default_names, is_default_name, is_default_preset,
    is_default_preset_name,
};
use crate::json::{
    array_of, as_array, as_bool, as_i64, as_str, as_u64, bool_of, i64_of, int_value,
    lemma_lookup_at, member, object_keys, or_text, str_of, text_entry, u64_of, uint_value,
    JsonValue,
};
use crate::text::{owned, str_eq, trim_end, trim_end_char};

verus! {

/// Number of equalizer bands.
pub const BAND_COUNT: usize = 18;

/// The settings of the player, with the key that protects stored passwords.
pub struct AppConfig {
    pub key: [u8; 32],
    pub servers: Vec<ServerConfig>,
    pub active_server_index: i32,
    pub eq_presets: Vec<EQPreset>,
    pub active_eq_preset: String,
    pub custom_eq_gains: Vec<u64>,
    pub volume: u32,
    pub shuffle: bool,
    pub repeat_mode: String,
    pub audio_device: String,
}

/// Two servers hold the same texts.
pub open spec fn same_server(a: ServerConfig, b: ServerConfig) -> bool {
    &&& a.name@ == b.name@
    &&& a.url@ == b.url@
    &&& a.username@ == b.username@
    &&& a.encrypted_password@ == b.encrypted_password@
}

/// Two lists of servers hold the same texts, in order.
pub open spec fn same_servers(a: Seq<ServerConfig>, b: Seq<ServerConfig>) -> bool {
    a.len() == b.len() && forall|k: int| 0 <= k < a.len() ==> same_server(#[trigger] a[k], b[k])
}

/// Two presets hold the same name and gains.
pub open spec fn same_preset(a: EQPreset, b: EQPreset) -> bool {
    a.name@ == b.name@ && a.gains@ == b.gains@
}

/// Two lists of presets hold the same names and gains, in order.
pub open spec fn same_presets(a: Seq<EQPreset>, b: Seq<EQPreset>) -> bool {
    a.len() == b.len() && forall|k: int| 0 <= k < a.len() ==> same_preset(#[trigger] a[k], b[k])
}

/// `out` is what reading the entries `items` as servers gives: the readable
/// ones, in order (`filter_map(ServerConfig::from_value)`).
pub open spec fn servers_read(items: Seq<JsonValue>, out: Seq<ServerConfig>) -> bool
    decreases items.len(),
{
    if items.len() == 0 {
        out.len() == 0
    } else if server_readable(items.last()) {
        &&& out.len() > 0
        &&& server_from(items.last(), out.last())
        &&& servers_read(items.drop_last(), out.drop_last())
    } else {
        servers_read(items.drop_last(), out)
    }
}

/// `out` is what reading the entries `items` as custom presets gives: the
/// readable ones whose name is not a built-in preset's, in order.
pub open spec fn presets_read(items: Seq<JsonValue>, out: Seq<EQPreset>) -> bool
    decreases items.len(),
{
    if items.len() == 0 {
        out.len() == 0
    } else if preset_readable(items.last()) && !is_default_name(
        str_of(member(items.last(), "name"@))->0,
    ) {
        &&& out.len() > 0
        &&& preset_from(items.last(), out.last())
        &&& presets_read(items.drop_last(), out.drop_last())
    } else {
        presets_read(items.drop_last(), out)
    }
}

/// The list starts with the ten built-in presets; the others have names that
/// are not built-in names.
pub open spec fn presets_wf(p: Seq<EQPreset>) -> bool {
    &&& p.len() >= 10
    &&& forall|k: int| 0 <= k < 10 ==> is_default_preset(#[trigger] p[k], k)
    &&& forall|k: int| 10 <= k < p.len() ==> !is_default_name((#[trigger] p[k]).name@)
}

/// Eighteen gains of 0 dB.
pub open spec fn flat_gains() -> Seq<u64> {
    Seq::new(18, |k: int| 0u64)
}

/// The settings before any document is read.
pub open spec fn is_default_config(c: AppConfig) -> bool {
    &&& c.servers@.len() == 0
    &&& c.active_server_index == -1
    &&& presets_wf(c.eq_presets@) && c.eq_presets@.len() == 10
    &&& c.active_eq_preset@ == "Flat"@
    &&& c.custom_eq_gains@ == flat_gains()
    &&& c.volume == 75
    &&& !c.shuffle
    &&& c.repeat_mode@ == "off"@
    &&& c.audio_device@ == "auto"@
}

/// The settings read from the document `data`: each present member of the
/// right kind replaces the default, custom presets follow the built-in ones.
pub open spec fn is_loaded_config(c: AppConfig, data: JsonValue) -> bool {
    &&& match array_of(member(data, "servers"@)) {
        Some(items) => servers_read(items, c.servers@),
        None => c.servers@.len() == 0,
    }
    &&& c.active_server_index == match i64_of(member(data, "active_server_index"@)) {
        Some(i) => i as i32,
        None => -1i32,
    }
    &&& c.eq_presets@.len() >= 10
    &&& forall|k: int| 0 <= k < 10 ==> is_default_preset(#[trigger] c.eq_presets@[k], k)
    &&& match array_of(member(data, "custom_eq_presets"@)) {
        Some(items) => presets_read(items, c.eq_presets@.skip(10)),
        None => c.eq_presets@.len() == 10,
    }
    &&& c.active_eq_preset@ == or_text(str_of(member(data, "active_eq_preset"@)), "Flat"@)
    &&& c.custom_eq_gains@ == match array_of(member(data, "custom_eq_gains"@)) {
        Some(items) => gains_of(items),
        None => flat_gains(),
    }
    &&& c.volume == match u64_of(member(data, "volume"@)) {
        Some(v) => v as u32,
        None => 75u32,
    }
    &&& c.shuffle == match bool_of(member(data, "shuffle"@)) {
        Some(b) => b,
        None => false,
    }
    &&& c.repeat_mode@ == or_text(str_of(member(data, "repeat_mode"@)), "off"@)
    &&& c.audio_device@ == or_text(str_of(member(data, "audio_device"@)), "auto"@)
}

/// The keys of the configuration document, in the order they are written.
pub open spec fn document_keys() -> Seq<Seq<char>> {
    seq![
        "servers"@,
        "active_server_index"@,
        "active_eq_preset"@,
        "custom_eq_gains"@,
        "custom_eq_presets"@,
        "volume"@,
        "shuffle"@,
        "repeat_mode"@,
        "audio_device"@,
    ]
}

/// The presets of a list that are not built-in ones, in order.
pub open spec fn custom_presets(p: Seq<EQPreset>) -> Seq<EQPreset>
    decreases p.len(),
{
    if p.len() == 0 {
        Seq::empty()
    } else if is_default_name(p.last().name@) {
        custom_presets(p.drop_last())
    } else {
        custom_presets(p.drop_last()).push(p.last())
    }
}

/// `doc` is the configuration document for the settings `c`.
pub open spec fn is_saved_document(doc: JsonValue, c: AppConfig) -> bool {
    &&& doc is Object
    &&& object_keys(doc) == document_keys()
    &&& array_of(member(doc, "servers"@)) matches Some(items) && items.len() == c.servers@.len()
        && forall|k: int| 0 <= k < items.len() ==> server_value(#[trigger] items[k], c.servers@[k])
    &&& i64_of(member(doc, "active_server_index"@)) == Some(c.active_server_index as i64)
    &&& text_member(doc, "active_eq_preset"@, c.active_eq_preset@)
    &&& array_of(member(doc, "custom_eq_gains"@)) matches Some(items) && gains_of(items)
        == c.custom_eq_gains@
    &&& array_of(member(doc, "custom_eq_presets"@)) matches Some(items) && items.len()
        == custom_presets(c.eq_presets@).len() && forall|k: int|
        0 <= k < items.len() ==> preset_value(#[trigger] items[k], custom_presets(c.eq_presets@)[k])
    &&& u64_of(member(doc, "volume"@)) == Some(c.volume as u64)
    &&& bool_of(member(doc, "shuffle"@)) == Some(c.shuffle)
    &&& text_member(doc, "repeat_mode"@, c.repeat_mode@)
    &&& text_member(doc, "audio_device"@, c.audio_device@)
}

/// The position of the first preset named `name`.
pub open spec fn first_named(p: Seq<EQPreset>, name: Seq<char>) -> Option<int>
    decreases p.len(),
{
    if p.len() == 0 {
        None
    } else if p[0].name@ == name {
        Some(0)
    } else {
        match first_named(p.drop_first(), name) {
            Some(k) => Some(k + 1),
            None => None,
        }
    }
}

/// The presets of a list not named `name`, in order.
pub open spec fn without_name(p: Seq<EQPreset>, name: Seq<char>) -> Seq<EQPreset>
    decreases p.len(),
{
    if p.len() == 0 {
        Seq::empty()
    } else if p.last().name@ == name {
        without_name(p.drop_last(), name)
    } else {
        without_name(p.drop_last(), name).push(p.last())
    }
}

/// The name a preset is saved under: built-in names get a " (Custom)" suffix.
pub open spec fn custom_name(name: Seq<char>) -> Seq<char> {
    if is_default_name(name) {
        name + " (Custom)"@
    } else {
        name
    }
}

/// The active index after removing the server at `removed`, leaving `len`
/// servers: a later active server moves down with its list, and an index
/// past the end moves to the last server (-1 when none is left).
pub open spec fn index_after_server_removal(active: int, removed: int, len: int) -> int {
    let shifted = if removed < active {
        active - 1
    } else {
        active
    };
    if shifted >= len {
        len - 1
    } else {
        shifted
    }
}

/// The server a password is read for: the one given, else the active one.
pub open spec fn chosen_server(c: AppConfig, server: Option<ServerConfig>) -> Option<
    ServerConfig,
> {
    match server {
        Some(s) => Some(s),
        None => if 0 <= c.active_server_index < c.servers@.len() {
            Some(c.servers@[c.active_server_index as int])
        } else {
            None
        },
    }
}

/// The password read for a server: its decryption, or empty when the server
/// has no stored password or decryption fails.
pub open spec fn password_for(key: Seq<u8>, server: Option<ServerConfig>) -> Seq<char> {
    match server {
        Some(s) => if s.encrypted_password@.len() > 0 {
            match decryption(key, s.encrypted_password@) {
                Ok(p) => p,
                Err(_) => Seq::empty(),
            }
        } else {
            Seq::empty()
        },
        None => Seq::empty(),
    }
}

/// The reference an optional server reference points to, as a value.
pub open spec fn deref_server(r: Option<&ServerConfig>) -> Option<ServerConfig> {
    match r {
        Some(s) => Some(*s),
        None => None,
    }
}

/// The servers of a document's list, skipping entries that are not servers.
fn read_servers(items: &Vec<JsonValue>) -> (r: Vec<ServerConfig>)
    ensures
        servers_read(items@, r@),
{
    let mut out: Vec<ServerConfig> = Vec::new();
    let mut i: usize = 0;
    while i < items.len()
        invariant
            i <= items@.len(),
            servers_read(items@.take(i as int), out@),
        decreases items@.len() - i,
    {
        let ghost before = out@;
        let ghost next = items@.take(i + 1);
        assert(next.drop_last() =~= items@.take(i as int));
        assert(next.last() == items@[i as int]);
        match ServerConfig::from_value(&items[i]) {
            Some(s) => {
                out.push(s);
                assert(out@.drop_last() =~= before);
            },
            None => {},
        }
        i = i + 1;
    }
    assert(items@.take(items@.len() as int) =~= items@);
    out
}

/// The custom presets of a document's list: entries that read as presets and
/// are not named like a built-in one.
fn read_custom_presets(items: &Vec<JsonValue>) -> (r: Vec<EQPreset>)
    ensures
        presets_read(items@, r@),
{
    let mut out: Vec<EQPreset> = Vec::new();
    let mut i: usize = 0;
    while i < items.len()
        invariant
            i <= items@.len(),
            presets_read(items@.take(i as int), out@),
        decreases items@.len() - i,
    {
        let ghost before = out@;
        let ghost next = items@.take(i + 1);
        assert(next.drop_last() =~= items@.take(i as int));
        assert(next.last() == items@[i as int]);
        match EQPreset::from_value(&items[i]) {
            Some(p) => {
                if !is_default_preset_name(p.name.as_str()) {
                    out.push(p);
                    assert(out@.drop_last() =~= before);
                }
            },
            None => {},
        }
        i = i + 1;
    }
    assert(items@.take(items@.len() as int) =~= items@);
    out
}

/// The document entries of a list of servers.
fn server_values(servers: &Vec<ServerConfig>) -> (r: Vec<JsonValue>)
    ensures
        r@.len() == servers@.len(),
        forall|k: int| 0 <= k < r@.len() ==> server_value(#[trigger] r@[k], servers@[k]),
{
    let mut out: Vec<JsonValue> = Vec::new();
    let mut i: usize = 0;
    while i < servers.len()
        invariant
            i <= servers@.len(),
            out@.len() == i,
            forall|k: int| 0 <= k < i ==> server_value(#[trigger] out@[k], servers@[k]),
        decreases servers@.len() - i,
    {
        out.push(servers[i].to_value());
        i = i + 1;
    }
    out
}

/// The document entries of the presets of a list that are not built-in ones.
fn custom_preset_values(presets: &Vec<EQPreset>) -> (r: Vec<JsonValue>)
    ensures
        r@.len() == custom_presets(presets@).len(),
        forall|k: int|
            0 <= k < r@.len() ==> preset_value(#[trigger] r@[k], custom_presets(presets@)[k]),
{
    let mut out: Vec<JsonValue> = Vec::new();
    let mut i: usize = 0;
    while i < presets.len()
        invariant
            i <= presets@.len(),
            out@.len() == custom_presets(presets@.take(i as int)).len(),
            forall|k: int|
                0 <= k < out@.len() ==> preset_value(
                    #[trigger] out@[k],
                    custom_presets(presets@.take(i as int))[k],
                ),
        decreases presets@.len() - i,
    {
        let ghost next = presets@.take(i + 1);
        assert(next.drop_last() =~= presets@.take(i as int));
        assert(next.last() == presets@[i as int]);
        if !is_default_preset_name(presets[i].name.as_str()) {
            out.push(presets[i].to_value());
        }
        i = i + 1;
    }
    assert(presets@.take(presets@.len() as int) =~= presets@);
    out
}

/// Eighteen gains of 0 dB.
fn flat() -> (r: Vec<u64>)
    ensures
        r@ == flat_gains(),
{
    let mut r: Vec<u64> = Vec::new();
    let mut i: usize = 0;
    while i < BAND_COUNT
        invariant
            i <= BAND_COUNT,
            r@ == Seq::new(i as nat, |k: int| 0u64),
        decreases BAND_COUNT - i,
    {
        r.push(0);
        assert(r@ =~= Seq::new((i + 1) as nat, |k: int| 0u64));
        i = i + 1;
    }
    r
}

/// Reading the entries written for a list of servers gives the same servers.
proof fn lemma_servers_read_back(items: Seq<JsonValue>, out: Seq<ServerConfig>, q: Seq<ServerConfig>)
    requires
        items.len() == q.len(),
        forall|k: int| 0 <= k < items.len() ==> server_value(#[trigger] items[k], q[k]),
        servers_read(items, out),
    ensures
        same_servers(out, q),
    decreases items.len(),
{
    if items.len() > 0 {
        let n = items.len() - 1;
        assert(server_value(items[n], q[n]));
        assert(items.last() == items[n]);
        lemma_servers_read_back(items.drop_last(), out.drop_last(), q.drop_last());
        assert forall|k: int| 0 <= k < out.len() implies same_server(#[trigger] out[k], q[k]) by {
            if k < n {
                assert(out.drop_last()[k] == out[k]);
                assert(q.drop_last()[k] == q[k]);
            }
        }
    }
}

/// Reading the entries written for a list of custom presets gives the same presets.
proof fn lemma_presets_read_back(items: Seq<JsonValue>, out: Seq<EQPreset>, q: Seq<EQPreset>)
    requires
        items.len() == q.len(),
        forall|k: int| 0 <= k < items.len() ==> preset_value(#[trigger] items[k], q[k]),
        forall|k: int| 0 <= k < q.len() ==> !is_default_name((#[trigger] q[k]).name@),
        presets_read(items, out),
    ensures
        same_presets(out, q),
    decreases items.len(),
{
    if items.len() > 0 {
        let n = items.len() - 1;
        assert(preset_value(items[n], q[n]));
        assert(!is_default_name(q[n].name@));
        assert(items.last() == items[n]);
        assert(forall|k: int|
            0 <= k < n ==> preset_value(#[trigger] items.drop_last()[k], q.drop_last()[k])) by {
            assert forall|k: int| 0 <= k < n implies preset_value(
                #[trigger] items.drop_last()[k],
                q.drop_last()[k],
            ) by {
                assert(items.drop_last()[k] == items[k]);
                assert(q.drop_last()[k] == q[k]);
            }
        }
        lemma_presets_read_back(items.drop_last(), out.drop_last(), q.drop_last());
        assert forall|k: int| 0 <= k < out.len() implies same_preset(#[trigger] out[k], q[k]) by {
            if k < n {
                assert(out.drop_last()[k] == out[k]);
                assert(q.drop_last()[k] == q[k]);
            }
        }
    }
}

/// A built-in preset's name is a built-in name.
proof fn lemma_default_name(k: int)
    requires
        0 <= k < 10,
    ensures
        is_default_name(default_names()[k]),
{
    assert(default_names()[k] == default_names()[k]);
}

/// In a list of built-in presets there is no custom one.
proof fn lemma_no_custom(p: Seq<EQPreset>)
    requires
        forall|k: int| 0 <= k < p.len() ==> is_default_name((#[trigger] p[k]).name@),
    ensures
        custom_presets(p) == Seq::<EQPreset>::empty(),
    decreases p.len(),
{
    if p.len() > 0 {
        assert(is_default_name(p[p.len() - 1].name@));
        lemma_no_custom(p.drop_last());
    }
}

/// In a well-formed list of presets, the custom ones are those after the ten built-in ones.
proof fn lemma_custom_presets_skip(p: Seq<EQPreset>)
    requires
        presets_wf(p),
    ensures
        custom_presets(p) == p.skip(10),
    decreases p.len(),
{
    if p.len() == 10 {
        assert forall|k: int| 0 <= k < p.len() implies is_default_name((#[trigger] p[k]).name@) by {
            assert(is_default_preset(p[k], k));
            lemma_default_name(k);
        }
        lemma_no_custom(p);
        assert(p.skip(10) =~= Seq::<EQPreset>::empty());
    } else {
        let q = p.drop_last();
        assert(forall|k: int| 0 <= k < 10 ==> #[trigger] q[k] == p[k]);
        assert(forall|k: int| 10 <= k < q.len() ==> #[trigger] q[k] == p[k]);
        lemma_custom_presets_skip(q);
        assert(!is_default_name(p[p.len() - 1].name@));
        assert(p.skip(10) =~= q.skip(10).push(p.last()));
    }
}

/// The password stored for a server (by `add_server` or
/// `update_server_password`) is what `get_password` reads for it.
pub proof fn lemma_password_read_back(c: AppConfig, s: ServerConfig, password: Seq<char>)
    requires
        s.encrypted_password@.len() > 0,
        decryption(c.key@, s.encrypted_password@) matches Ok(p) && p == password,
    ensures
        password_for(c.key@, chosen_server(c, Some(s))) == password,
{
}

/// The presets `custom_presets` keeps have no built-in name.
proof fn lemma_custom_presets_named(p: Seq<EQPreset>)
    ensures
        forall|k: int|
            0 <= k < custom_presets(p).len() ==> !is_default_name(
                (#[trigger] custom_presets(p)[k]).name@,
            ),
    decreases p.len(),
{
    if p.len() > 0 {
        lemma_custom_presets_named(p.drop_last());
        let prev = custom_presets(p.drop_last());
        assert forall|k: int| 0 <= k < custom_presets(p).len() implies !is_default_name(
            (#[trigger] custom_presets(p)[k]).name@,
        ) by {
            if k < prev.len() {
                assert(custom_presets(p)[k] == prev[k]);
            }
        }
    }
}

/// Loading the document that saving wrote gives back the same settings: the
/// servers in order, the ten built-in presets followed by the custom presets
/// of the saved list (those not named like a built-in one, in order), and
/// every other setting. When the saved list already had that shape, the
/// presets come back as they were.
pub proof fn lemma_save_then_load(c: AppConfig, doc: JsonValue, d: AppConfig)
    requires
        is_saved_document(doc, c),
        is_loaded_config(d, doc),
    ensures
        same_servers(d.servers@, c.servers@),
        d.active_server_index == c.active_server_index,
        d.eq_presets@.len() == 10 + custom_presets(c.eq_presets@).len(),
        forall|k: int| 0 <= k < 10 ==> is_default_preset(#[trigger] d.eq_presets@[k], k),
        same_presets(d.eq_presets@.skip(10), custom_presets(c.eq_presets@)),
        presets_wf(c.eq_presets@) ==> same_presets(d.eq_presets@, c.eq_presets@),
        d.active_eq_preset@ == c.active_eq_preset@,
        d.custom_eq_gains@ == c.custom_eq_gains@,
        d.volume == c.volume,
        d.shuffle == c.shuffle,
        d.repeat_mode@ == c.repeat_mode@,
        d.audio_device@ == c.audio_device@,
{
    let servers = array_of(member(doc, "servers"@))->0;
    lemma_servers_read_back(servers, d.servers@, c.servers@);
    let customs = custom_presets(c.eq_presets@);
    lemma_custom_presets_named(c.eq_presets@);
    let items = array_of(member(doc, "custom_eq_presets"@))->0;
    lemma_presets_read_back(items, d.eq_presets@.skip(10), customs);
    if presets_wf(c.eq_presets@) {
        lemma_custom_presets_skip(c.eq_presets@);
        assert forall|k: int| 0 <= k < d.eq_presets@.len() implies same_preset(
            #[trigger] d.eq_presets@[k],
            c.eq_presets@[k],
        ) by {
            if k < 10 {
                assert(is_default_preset(d.eq_presets@[k], k));
                assert(is_default_preset(c.eq_presets@[k], k));
            } else {
                assert(d.eq_presets@.skip(10)[k - 10] == d.eq_presets@[k]);
                assert(customs[k - 10] == c.eq_presets@[k]);
            }
        }
    }
}

/// Removing a name no preset has changes nothing.
proof fn lemma_without_absent(p: Seq<EQPreset>, n: Seq<char>)
    requires
        forall|k: int| 0 <= k < p.len() ==> (#[trigger] p[k]).name@ != n,
    ensures
        without_name(p, n) == p,
    decreases p.len(),
{
    if p.len() > 0 {
        assert(p[p.len() - 1].name@ != n);
        lemma_without_absent(p.drop_last(), n);
        assert(p.drop_last().push(p.last()) =~= p);
    }
}

/// No preset left by `without_name` has the name.
proof fn lemma_without_has_none(p: Seq<EQPreset>, n: Seq<char>)
    ensures
        forall|k: int|
            0 <= k < without_name(p, n).len() ==> (#[trigger] without_name(p, n)[k]).name@ != n,
    decreases p.len(),
{
    if p.len() > 0 {
        lemma_without_has_none(p.drop_last(), n);
        let w = without_name(p.drop_last(), n);
        if p.last().name@ != n {
            assert forall|k: int| 0 <= k < w.len() + 1 implies (#[trigger] w.push(
                p.last(),
            )[k]).name@ != n by {
                if k < w.len() {
                    assert(w.push(p.last())[k] == w[k]);
                }
            }
        }
    }
}

/// Removing a name that is not built-in keeps a preset list well-formed.
proof fn lemma_without_wf(p: Seq<EQPreset>, n: Seq<char>)
    requires
        presets_wf(p),
        !is_default_name(n),
    ensures
        presets_wf(without_name(p, n)),
    decreases p.len(),
{
    if p.len() == 10 {
        assert forall|k: int| 0 <= k < p.len() implies (#[trigger] p[k]).name@ != n by {
            assert(is_default_preset(p[k], k));
            lemma_default_name(k);
        }
        lemma_without_absent(p, n);
    } else {
        let q = p.drop_last();
        assert(forall|k: int| 0 <= k < q.len() ==> #[trigger] q[k] == p[k]);
        lemma_without_wf(q, n);
        let w = without_name(q, n);
        if p.last().name@ != n {
            assert(!is_default_name(p[p.len() - 1].name@));
            assert(forall|k: int| 0 <= k < w.len() ==> #[trigger] w.push(p.last())[k] == w[k]);
        }
    }
}

/// A name with the " (Custom)" suffix is not a built-in name.
proof fn lemma_custom_name_not_default(name: Seq<char>)
    ensures
        !is_default_name(custom_name(name)),
{
    if is_default_name(name) {
        reveal_strlit(" (Custom)");
        reveal_strlit("Flat");
        reveal_strlit("Bass Boost");
        reveal_strlit("Treble Boost");
        reveal_strlit("Vocal");
        reveal_strlit("Rock");
        reveal_strlit("Pop");
        reveal_strlit("Jazz");
        reveal_strlit("Classical");
        reveal_strlit("Electronic");
        reveal_strlit("Loudness");
        let c = name + " (Custom)"@;
        assert(c.last() == ')');
        assert forall|i: int| 0 <= i < default_names().len() implies default_names()[i] != c by {
            assert(default_names()[i].last() != ')');
        }
    }
}

/// In a list whose only preset named `n` is the last, that is the first one so named.
proof fn lemma_first_named_last(q: Seq<EQPreset>, n: Seq<char>)
    requires
        q.len() > 0,
        q.last().name@ == n,
        forall|k: int| 0 <= k < q.len() - 1 ==> (#[trigger] q[k]).name@ != n,
    ensures
        first_named(q, n) == Some(q.len() - 1),
    decreases q.len(),
{
    if q.len() > 1 {
        assert(q[0].name@ != n);
        let r = q.drop_first();
        assert(forall|k: int| 0 <= k < r.len() - 1 ==> #[trigger] r[k] == q[k + 1]);
        lemma_first_named_last(r, n);
    }
}

/// Custom presets read from a document are not named like built-in ones.
proof fn lemma_presets_read_custom(items: Seq<JsonValue>, out: Seq<EQPreset>)
    requires
        presets_read(items, out),
    ensures
        forall|k: int| 0 <= k < out.len() ==> !is_default_name((#[trigger] out[k]).name@),
    decreases items.len(),
{
    if items.len() > 0 {
        if preset_readable(items.last()) && !is_default_name(
            str_of(member(items.last(), "name"@))->0,
        ) {
            lemma_presets_read_custom(items.drop_last(), out.drop_last());
            assert(preset_from(items.last(), out.last()));
            assert(str_of(member(items.last(), "name"@))->0 == out.last().name@);
            assert forall|k: int| 0 <= k < out.len() implies !is_default_name(
                (#[trigger] out[k]).name@,
            ) by {
                if k < out.len() - 1 {
                    assert(out.drop_last()[k] == out[k]);
                } else {
                    assert(out[k] == out.last());
                }
            }
        } else {
            lemma_presets_read_custom(items.drop_last(), out);
        }
    }
}

impl AppConfig {
    /// The settings before any document is read, with the password key.
    pub fn new(key: [u8; 32]) -> (r: AppConfig)
        ensures
            r.key@ == key@,
            is_default_config(r),
    {
        let presets = default_eq_presets();
        AppConfig {
            key,
            servers: Vec::new(),
            active_server_index: -1,
            eq_presets: presets,
            active_eq_preset: owned("Flat"),
            custom_eq_gains: flat(),
            volume: 75,
            shuffle: false,
            repeat_mode: owned("off"),
            audio_device: owned("auto"),
        }
    }

    /// The settings read from a configuration document; with no readable
    /// document, the defaults.
    pub fn load_from(key: [u8; 32], data: Option<&JsonValue>) -> (r: AppConfig)
        ensures
            r.key@ == key@,
            match data {
                Some(d) => is_loaded_config(r, *d),
                None => is_default_config(r),
            },
            presets_wf(r.eq_presets@),
    {
        let mut config = AppConfig::new(key);
        match data {
            Some(d) => {
                config.load_document(d);
            },
            None => {},
        }
        config
    }

    /// The configuration document for these settings: servers, settings and
    /// the presets that are not built-in ones.
    pub fn save_document(&self) -> (r: JsonValue)
        ensures
            is_saved_document(r, *self),
    {
        let servers = server_values(&self.servers);
        let gains = gain_values(&self.custom_eq_gains);
        let presets = custom_preset_values(&self.eq_presets);
        let ghost sv = servers@;
        let ghost gv = gains@;
        let ghost pv = presets@;
        let mut e: Vec<(String, JsonValue)> = Vec::new();
        e.push((owned("servers"), JsonValue::Array(servers)));
        e.push((owned("active_server_index"), int_value(self.active_server_index as i64)));
        e.push(text_entry("active_eq_preset", self.active_eq_preset.as_str()));
        e.push((owned("custom_eq_gains"), JsonValue::Array(gains)));
        e.push((owned("custom_eq_presets"), JsonValue::Array(presets)));
        e.push((owned("volume"), uint_value(self.volume as u64)));
        e.push((owned("shuffle"), JsonValue::Bool(self.shuffle)));
        e.push(text_entry("repeat_mode", self.repeat_mode.as_str()));
        e.push(text_entry("audio_device", self.audio_device.as_str()));
        let r = JsonValue::Object(e);
        proof {
            reveal_strlit("servers");
            reveal_strlit("active_server_index");
            reveal_strlit("active_eq_preset");
            reveal_strlit("custom_eq_gains");
            reveal_strlit("custom_eq_presets");
            reveal_strlit("volume");
            reveal_strlit("shuffle");
            reveal_strlit("repeat_mode");
            reveal_strlit("audio_device");
            let es = e@;
            assert(object_keys(r) =~= document_keys());
            assert("servers"@.len() == 7 && "active_server_index"@.len() == 19);
            assert("active_eq_preset"@.len() == 16 && "custom_eq_gains"@.len() == 15);
            assert("custom_eq_presets"@.len() == 17 && "volume"@.len() == 6);
            assert("shuffle"@.len() == 7 && "repeat_mode"@.len() == 11);
            assert("audio_device"@.len() == 12);
            assert("servers"@[1] != "shuffle"@[1]);
            lemma_lookup_at(es, "servers"@, 0);
            lemma_lookup_at(es, "active_server_index"@, 1);
            lemma_lookup_at(es, "active_eq_preset"@, 2);
            lemma_lookup_at(es, "custom_eq_gains"@, 3);
            lemma_lookup_at(es, "custom_eq_presets"@, 4);
            lemma_lookup_at(es, "volume"@, 5);
            lemma_lookup_at(es, "shuffle"@, 6);
            lemma_lookup_at(es, "repeat_mode"@, 7);
            lemma_lookup_at(es, "audio_device"@, 8);
        }
        r
    }

    /// The active server, when the active index points into the list.
    pub fn active_server(&self) -> (r: Option<&ServerConfig>)
        ensures
            deref_server(r) == (if 0 <= self.active_server_index < self.servers@.len() {
                Some(self.servers@[self.active_server_index as int])
            } else {
                None
            }),
    {
        if self.active_server_index >= 0 && (self.active_server_index as usize) < self.servers.len() {
            Some(&self.servers[self.active_server_index as usize])
        } else {
            None
        }
    }

    /// Adds a server (trailing slashes of the url dropped, the password
    /// encrypted); the first server added becomes the active one.
    pub fn add_server(&mut self, name: &str, url: &str, username: &str, password: &str) -> (r:
        &ServerConfig)
        requires
            encode_utf8(password@).len() <= 0x10_0000_0000,
        ensures
            final(self).servers@.len() == old(self).servers@.len() + 1,
            final(self).servers@.drop_last() == old(self).servers@,
            *r == final(self).servers@.last(),
            r.name@ == name@,
            r.url@ == trim_end(url@, '/'),
            r.username@ == username@,
            is_encryption_of(old(self).key@, password@, r.encrypted_password@),
            r.encrypted_password@.len() > 0,
            decryption(old(self).key@, r.encrypted_password@) matches Ok(p) && p == password@,
            final(self).active_server_index == (if old(self).active_server_index < 0 {
                0
            } else {
                old(self).active_server_index
            }),
            final(self).key == old(self).key,
            final(self).eq_presets@ == old(self).eq_presets@,
            final(self).active_eq_preset@ == old(self).active_eq_preset@,
            final(self).custom_eq_gains@ == old(self).custom_eq_gains@,
            final(self).volume == old(self).volume,
            final(self).shuffle == old(self).shuffle,
            final(self).repeat_mode@ == old(self).repeat_mode@,
            final(self).audio_device@ == old(self).audio_device@,
    {
        let server = ServerConfig {
            name: owned(name),
            url: trim_end_char(url, '/'),
            username: owned(username),
            encrypted_password: encrypt_password(password, &self.key),
        };
        self.servers.push(server);
        if self.active_server_index < 0 {
            self.active_server_index = 0;
        }
        let last = self.servers.len() - 1;
        &self.servers[last]
    }

    /// Removes the server at `index`, when there is one. The active server
    /// stays active: removing one before it moves the active index down by
    /// one; removing the active one leaves the index on the server that took
    /// its place, or on the last server when it was the last (-1 when none is
    /// left).
    pub fn remove_server(&mut self, index: usize)
        requires
            old(self).servers@.len() <= 0x8000_0000,
        ensures
            index < old(self).servers@.len() ==> final(self).servers@ == old(self).servers@.remove(
                index as int,
            ) && final(self).active_server_index == index_after_server_removal(
                old(self).active_server_index as int,
                index as int,
                final(self).servers@.len() as int,
            ),
            index >= old(self).servers@.len() ==> final(self).servers@ == old(self).servers@
                && final(self).active_server_index == old(self).active_server_index,
            final(self).key == old(self).key,
            final(self).eq_presets@ == old(self).eq_presets@,
            final(self).active_eq_preset@ == old(self).active_eq_preset@,
            final(self).custom_eq_gains@ == old(self).custom_eq_gains@,
            final(self).volume == old(self).volume,
            final(self).shuffle == old(self).shuffle,
            final(self).repeat_mode@ == old(self).repeat_mode@,
            final(self).audio_device@ == old(self).audio_device@,
    {
        if index < self.servers.len() {
            self.servers.remove(index);
            let n = self.servers.len() as i32;
            if (index as i32) < self.active_server_index {
                self.active_server_index = self.active_server_index - 1;
            }
            if self.active_server_index >= n {
                self.active_server_index = n - 1;
            }
        }
    }

    /// Makes the server at `index` the active one, when there is one.
    pub fn set_active_server(&mut self, index: usize)
        ensures
            final(self).active_server_index == (if index < old(self).servers@.len() {
                index as i32
            } else {
                old(self).active_server_index
            }),
            final(self).key == old(self).key,
            final(self).servers@ == old(self).servers@,
            final(self).eq_presets@ == old(self).eq_presets@,
            final(self).active_eq_preset@ == old(self).active_eq_preset@,
            final(self).custom_eq_gains@ == old(self).custom_eq_gains@,
            final(self).volume == old(self).volume,
            final(self).shuffle == old(self).shuffle,
            final(self).repeat_mode@ == old(self).repeat_mode@,
            final(self).audio_device@ == old(self).audio_device@,
    {
        if index < self.servers.len() {
            self.active_server_index = index as i32;
        }
    }

    /// The password of the given server, else of the active one: empty when
    /// there is none, when none is stored, or when it cannot be decrypted.
    pub fn get_password(&self, server: Option<&ServerConfig>) -> (r: String)
        ensures
            r@ == password_for(self.key@, chosen_server(*self, deref_server(server))),
    {
        let srv = match server {
            Some(s) => Some(s),
            None => self.active_server(),
        };
        match srv {
            Some(s) => {
                if s.encrypted_password.as_str().unicode_len() > 0 {
                    match decrypt_password(s.encrypted_password.as_str(), &self.key) {
                        Ok(p) => p,
                        Err(_) => String::new(),
                    }
                } else {
                    String::new()
                }
            },
            None => String::new(),
        }
    }

    /// Replaces the stored password of the server at `index`, when there is one.
    pub fn update_server_password(&mut self, index: usize, password: &str)
        requires
            encode_utf8(password@).len() <= 0x10_0000_0000,
        ensures
            final(self).servers@.len() == old(self).servers@.len(),
            forall|k: int|
                0 <= k < old(self).servers@.len() && k != index ==> #[trigger] final(self).servers@[k]
                    == old(self).servers@[k],
            index < old(self).servers@.len() ==> {
                let s = final(self).servers@[index as int];
                let o = old(self).servers@[index as int];
                &&& s.name@ == o.name@
                &&& s.url@ == o.url@
                &&& s.username@ == o.username@
                &&& is_encryption_of(old(self).key@, password@, s.encrypted_password@)
                &&& s.encrypted_password@.len() > 0
                &&& decryption(old(self).key@, s.encrypted_password@) matches Ok(p) && p
                    == password@
            },
            final(self).key == old(self).key,
            final(self).active_server_index == old(self).active_server_index,
            final(self).eq_presets@ == old(self).eq_presets@,
            final(self).active_eq_preset@ == old(self).active_eq_preset@,
            final(self).custom_eq_gains@ == old(self).custom_eq_gains@,
            final(self).volume == old(self).volume,
            final(self).shuffle == old(self).shuffle,
            final(self).repeat_mode@ == old(self).repeat_mode@,
            final(self).audio_device@ == old(self).audio_device@,
    {
        if index < self.servers.len() {
            let old_server = &self.servers[index];
            let server = ServerConfig {
                name: old_server.name.clone(),
                url: old_server.url.clone(),
                username: old_server.username.clone(),
                encrypted_password: encrypt_password(password, &self.key),
            };
            self.servers.set(index, server);
        }
    }

    /// The first preset named `name`.
    pub fn get_eq_preset(&self, name: &str) -> (r: Option<&EQPreset>)
        ensures
            match r {
                Some(p) => first_named(self.eq_presets@, name@) matches Some(k)
                    && *p == self.eq_presets@[k],
                None => first_named(self.eq_presets@, name@) is None,
            },
    {
        let ghost all = self.eq_presets@;
        assert(all.skip(0) =~= all);
        let mut i: usize = 0;
        while i < self.eq_presets.len()
            invariant
                i <= all.len(),
                all == self.eq_presets@,
                first_named(all, name@) == match first_named(all.skip(i as int), name@) {
                    Some(k) => Some(k + i),
                    None => None::<int>,
                },
            decreases all.len() - i,
        {
            assert(all.skip(i as int).drop_first() =~= all.skip(i + 1));
            assert(all.skip(i as int)[0] == all[i as int]);
            if str_eq(self.eq_presets[i].name.as_str(), name) {
                return Some(&self.eq_presets[i]);
            }
            i = i + 1;
        }
        None
    }

    /// Saves gains as a custom preset under `name` (a built-in name gets a
    /// " (Custom)" suffix), replacing any preset of that name.
    pub fn save_custom_eq_preset(&mut self, name: &str, gains: &[u64])
        ensures
            final(self).eq_presets@.len() > 0,
            same_presets(
                final(self).eq_presets@.drop_last(),
                without_name(old(self).eq_presets@, custom_name(name@)),
            ),
            final(self).eq_presets@.last().name@ == custom_name(name@),
            final(self).eq_presets@.last().gains@ == gains@,
            first_named(final(self).eq_presets@, custom_name(name@)) == Some(
                final(self).eq_presets@.len() - 1,
            ),
            presets_wf(old(self).eq_presets@) ==> presets_wf(final(self).eq_presets@),
            final(self).key == old(self).key,
            final(self).servers@ == old(self).servers@,
            final(self).active_server_index == old(self).active_server_index,
            final(self).active_eq_preset@ == old(self).active_eq_preset@,
            final(self).custom_eq_gains@ == old(self).custom_eq_gains@,
            final(self).volume == old(self).volume,
            final(self).shuffle == old(self).shuffle,
            final(self).repeat_mode@ == old(self).repeat_mode@,
            final(self).audio_device@ == old(self).audio_device@,
    {
        let mut actual = owned(name);
        if is_default_preset_name(name) {
            actual.append(" (Custom)");
        }
        let ghost target = custom_name(name@);
        assert(actual@ == target);
        let mut kept: Vec<EQPreset> = Vec::new();
        let mut i: usize = 0;
        while i < self.eq_presets.len()
            invariant
                i <= self.eq_presets@.len(),
                actual@ == target,
                same_presets(kept@, without_name(self.eq_presets@.take(i as int), target)),
            decreases self.eq_presets@.len() - i,
        {
            let ghost next = self.eq_presets@.take(i + 1);
            assert(next.drop_last() =~= self.eq_presets@.take(i as int));
            assert(next.last() == self.eq_presets@[i as int]);
            if !str_eq(self.eq_presets[i].name.as_str(), actual.as_str()) {
                kept.push(self.eq_presets[i].duplicate());
            }
            i = i + 1;
        }
        assert(self.eq_presets@.take(self.eq_presets@.len() as int) =~= self.eq_presets@);
        let ghost w = without_name(self.eq_presets@, target);
        kept.push(EQPreset { name: actual, gains: vstd::slice::slice_to_vec(gains) });
        proof {
            lemma_without_has_none(self.eq_presets@, target);
            assert(kept@.drop_last() =~= kept@.take(kept@.len() - 1));
            assert forall|k: int| 0 <= k < kept@.len() - 1 implies (#[trigger] kept@[k]).name@
                != target by {
                assert(same_preset(kept@[k], w[k]));
            }
            lemma_first_named_last(kept@, target);
            if presets_wf(self.eq_presets@) {
                lemma_custom_name_not_default(name@);
                lemma_without_wf(self.eq_presets@, target);
                assert forall|k: int| 0 <= k < 10 implies is_default_preset(#[trigger] kept@[k], k) by {
                    assert(same_preset(kept@[k], w[k]));
                    assert(is_default_preset(w[k], k));
                }
                assert forall|k: int| 10 <= k < kept@.len() implies !is_default_name(
                    (#[trigger] kept@[k]).name@,
                ) by {
                    if k < kept@.len() - 1 {
                        assert(same_preset(kept@[k], w[k]));
                    }
                }
            }
        }
        self.eq_presets = kept;
    }

    /// Reads the document over the defaults.
    fn load_document(&mut self, data: &JsonValue)
        requires
            is_default_config(*old(self)),
        ensures
            final(self).key@ == old(self).key@,
            is_loaded_config(*final(self), *data),
            presets_wf(final(self).eq_presets@),
    {
        match as_array(data.member("servers")) {
            Some(items) => {
                self.servers = read_servers(items);
            },
            None => {},
        }
        match as_i64(data.member("active_server_index")) {
            Some(idx) => {
                self.active_server_index = idx as i32;
            },
            None => {},
        }
        match as_str(data.member("active_eq_preset")) {
            Some(preset) => {
                self.active_eq_preset = owned(preset);
            },
            None => {},
        }
        match as_array(data.member("custom_eq_gains")) {
            Some(gains) => {
                self.custom_eq_gains = gains_from(gains);
            },
            None => {},
        }
        match as_u64(data.member("volume")) {
            Some(vol) => {
                self.volume = vol as u32;
            },
            None => {},
        }
        match as_bool(data.member("shuffle")) {
            Some(shuf) => {
                self.shuffle = shuf;
            },
            None => {},
        }
        match as_str(data.member("repeat_mode")) {
            Some(rm) => {
                self.repeat_mode = owned(rm);
            },
            None => {},
        }
        match as_str(data.member("audio_device")) {
            Some(dev) => {
                self.audio_device = owned(dev);
            },
            None => {},
        }
        match as_array(data.member("custom_eq_presets")) {
            Some(custom) => {
                let mut extra = read_custom_presets(custom);
                let ghost read = extra@;
                self.eq_presets.append(&mut extra);
                assert(self.eq_presets@.skip(10) =~= read);
                proof {
                    lemma_presets_read_custom(custom@, read);
                    assert(forall|k: int|
                        10 <= k < self.eq_presets@.len() ==> #[trigger] self.eq_presets@[k]
                            == read[k - 10]);
                }
            },
            None => {},
        }
    }
}

} // verus!
