//! A JSON document as plain values, with the lookups the library reads
//! documents through: a missing key or a value of another kind reads as
//! absent, as `serde_json`'s `value[key].as_str()` and the like do.

use vstd::prelude::*;

use crate::double::{int_double_bits, int_f64_bits};
use crate::text::{decimal, owned, signed_decimal, str_eq};

verus! {

/// How a JSON number was written: a non-negative integer, a negative integer,
/// or a number with a fraction or an exponent. The last keeps the text
/// `serde_json` prints for a number read from a document; numbers the library
/// builds itself carry an empty text and are written from their bits.
#[derive(Debug, Clone, PartialEq)]
pub enum NumberRepr {
    PosInt(u64),
    NegInt(i64),
    Float(String),
}

/// A JSON number: how it was written, and the IEEE-754 bits of the double it
/// reads as (`as_f64`).
#[derive(Debug, Clone, PartialEq)]
pub struct JsonNumber {
    pub repr: NumberRepr,
    pub f64_bits: u64,
}

/// A JSON value. Objects keep their entries in order; a key is looked up by
/// its first entry.
#[derive(Debug)]
pub enum JsonValue {
    Null,
    Bool(bool),
    Number(JsonNumber),
    String(String),
    Array(Vec<JsonValue>),
    Object(Vec<(String, JsonValue)>),
}

/// The value of the first entry named `key`.
pub open spec fn lookup(entries: Seq<(String, JsonValue)>, key: Seq<char>) -> Option<JsonValue>
    decreases entries.len(),
{
    if entries.len() == 0 {
        None
    } else if entries[0].0@ == key {
        Some(entries[0].1)
    } else {
        lookup(entries.drop_first(), key)
    }
}

/// The member `key` of an object; absent for other values.
pub open spec fn member(v: JsonValue, key: Seq<char>) -> Option<JsonValue> {
    match v {
        JsonValue::Object(entries) => lookup(entries@, key),
        _ => None,
    }
}

/// The member `key` of an optional object.
pub open spec fn member_of(v: Option<JsonValue>, key: Seq<char>) -> Option<JsonValue> {
    match v {
        Some(x) => member(x, key),
        None => None,
    }
}

/// The text of a string value.
pub open spec fn str_of(v: Option<JsonValue>) -> Option<Seq<char>> {
    match v {
        Some(JsonValue::String(s)) => Some(s@),
        _ => None,
    }
}

/// A non-negative integer value.
pub open spec fn u64_of(v: Option<JsonValue>) -> Option<u64> {
    match v {
        Some(JsonValue::Number(n)) => match n.repr {
            NumberRepr::PosInt(u) => Some(u),
            _ => None,
        },
        _ => None,
    }
}

/// An integer value that fits an `i64`.
pub open spec fn i64_of(v: Option<JsonValue>) -> Option<i64> {
    match v {
        Some(JsonValue::Number(n)) => match n.repr {
            NumberRepr::PosInt(u) => if u <= i64::MAX {
                Some(u as i64)
            } else {
                None
            },
            NumberRepr::NegInt(i) => Some(i),
            _ => None,
        },
        _ => None,
    }
}

/// The keys of an object's entries, in order; empty for other values.
pub open spec fn object_keys(v: JsonValue) -> Seq<Seq<char>> {
    match v {
        JsonValue::Object(entries) => entries@.map_values(|e: (String, JsonValue)| e.0@),
        _ => Seq::empty(),
    }
}

/// The value of the first entry named `key` is the entry at `k`.
pub proof fn lemma_lookup_at(entries: Seq<(String, JsonValue)>, key: Seq<char>, k: int)
    requires
        0 <= k < entries.len(),
        entries[k].0@ == key,
        forall|j: int| 0 <= j < k ==> entries[j].0@ != key,
    ensures
        lookup(entries, key) == Some(entries[k].1),
    decreases k,
{
    if k > 0 {
        lemma_lookup_at(entries.drop_first(), key, k - 1);
    }
}

/// The double bits of a number value.
pub open spec fn f64_bits_of(v: Option<JsonValue>) -> Option<u64> {
    match v {
        Some(JsonValue::Number(n)) => Some(n.f64_bits),
        _ => None,
    }
}

/// A boolean value.
pub open spec fn bool_of(v: Option<JsonValue>) -> Option<bool> {
    match v {
        Some(JsonValue::Bool(b)) => Some(b),
        _ => None,
    }
}

/// The elements of an array value.
pub open spec fn array_of(v: Option<JsonValue>) -> Option<Seq<JsonValue>> {
    match v {
        Some(JsonValue::Array(items)) => Some(items@),
        _ => None,
    }
}

/// The text a number is printed as.
pub open spec fn number_text(n: JsonNumber) -> Seq<char> {
    match n.repr {
        NumberRepr::PosInt(u) => decimal(u as nat),
        NumberRepr::NegInt(i) => signed_decimal(i as int),
        NumberRepr::Float(t) => t@,
    }
}

/// A value read as an identifier: a string's text, a number's printed text,
/// and empty for anything else.
pub open spec fn text_of(v: Option<JsonValue>) -> Seq<char> {
    match v {
        Some(JsonValue::String(s)) => s@,
        Some(JsonValue::Number(n)) => number_text(n),
        _ => Seq::empty(),
    }
}

/// `a`'s text, or `default` when absent.
pub open spec fn or_text(a: Option<Seq<char>>, default: Seq<char>) -> Seq<char> {
    match a {
        Some(s) => s,
        None => default,
    }
}

/// `a`, or `default` when absent.
pub open spec fn or_u64(a: Option<u64>, default: u64) -> u64 {
    match a {
        Some(x) => x,
        None => default,
    }
}

/// The reference an optional reference points to, as a value.
pub open spec fn deref_json(r: Option<&JsonValue>) -> Option<JsonValue> {
    match r {
        Some(v) => Some(*v),
        None => None,
    }
}

impl JsonNumber {
    /// The text the number is printed as (`Number::to_string`).
    pub fn to_text(&self) -> (r: String)
        ensures
            r@ == number_text(*self),
    {
        match &self.repr {
            NumberRepr::PosInt(u) => crate::text::u64_to_string(*u),
            NumberRepr::NegInt(i) => crate::text::i64_to_string(*i),
            NumberRepr::Float(t) => t.clone(),
        }
    }
}

impl JsonValue {
    /// The member `key` of an object (`value.get(key)`).
    pub fn member(&self, key: &str) -> (r: Option<&JsonValue>)
        ensures
            deref_json(r) == member(*self, key@),
    {
        match self {
            JsonValue::Object(entries) => {
                assert(entries@.skip(0) =~= entries@);
                let mut i: usize = 0;
                while i < entries.len()
                    invariant
                        i <= entries@.len(),
                        member(*self, key@) == lookup(entries@, key@),
                        lookup(entries@, key@) == lookup(entries@.skip(i as int), key@),
                    decreases entries@.len() - i,
                {
                    assert(entries@.skip(i as int).drop_first() =~= entries@.skip(i + 1));
                    if str_eq(entries[i].0.as_str(), key) {
                        assert(entries@.skip(i as int)[0] == entries@[i as int]);
                        return Some(&entries[i].1);
                    }
                    i = i + 1;
                }
                None
            },
            _ => None,
        }
    }
}

/// A string entry of an object.
pub fn text_entry(key: &str, text: &str) -> (r: (String, JsonValue))
    ensures
        r.0@ == key@,
        r.1 matches JsonValue::String(t) && t@ == text@,
{
    (owned(key), JsonValue::String(owned(text)))
}

/// A number value for a double given by its bits.
pub fn double_value(bits: u64) -> (r: JsonValue)
    ensures
        r matches JsonValue::Number(n) && n.repr matches NumberRepr::Float(t) && t@.len() == 0
            && n.f64_bits == bits,
{
    JsonValue::Number(JsonNumber { repr: NumberRepr::Float(String::new()), f64_bits: bits })
}

/// A number value for a non-negative integer below 2^53.
pub fn uint_value(u: u64) -> (r: JsonValue)
    requires
        u < 0x20_0000_0000_0000,
    ensures
        r == JsonValue::Number(
            JsonNumber { repr: NumberRepr::PosInt(u), f64_bits: int_double_bits(u as int) },
        ),
{
    JsonValue::Number(JsonNumber { repr: NumberRepr::PosInt(u), f64_bits: int_f64_bits(u as i64) })
}

/// A number value for an integer of magnitude below 2^53, written as JSON
/// writes integers: non-negative ones as unsigned.
pub fn int_value(i: i64) -> (r: JsonValue)
    requires
        -0x20_0000_0000_0000 < i < 0x20_0000_0000_0000,
    ensures
        r == JsonValue::Number(
            JsonNumber {
                repr: if i < 0 {
                    NumberRepr::NegInt(i)
                } else {
                    NumberRepr::PosInt(i as u64)
                },
                f64_bits: int_double_bits(i as int),
            },
        ),
{
    let bits = int_f64_bits(i);
    if i < 0 {
        JsonValue::Number(JsonNumber { repr: NumberRepr::NegInt(i), f64_bits: bits })
    } else {
        JsonValue::Number(JsonNumber { repr: NumberRepr::PosInt(i as u64), f64_bits: bits })
    }
}

/// The text of an optional string value (`as_str`).
pub fn as_str(v: Option<&JsonValue>) -> (r: Option<&str>)
    ensures
        match r {
            Some(s) => str_of(deref_json(v)) == Some(s@),
            None => str_of(deref_json(v)) is None,
        },
{
    match v {
        Some(JsonValue::String(s)) => Some(s.as_str()),
        _ => None,
    }
}

/// A non-negative integer value (`as_u64`).
pub fn as_u64(v: Option<&JsonValue>) -> (r: Option<u64>)
    ensures
        r == u64_of(deref_json(v)),
{
    match v {
        Some(JsonValue::Number(n)) => match &n.repr {
            NumberRepr::PosInt(u) => Some(*u),
            _ => None,
        },
        _ => None,
    }
}

/// An integer value that fits an `i64` (`as_i64`).
pub fn as_i64(v: Option<&JsonValue>) -> (r: Option<i64>)
    ensures
        r == i64_of(deref_json(v)),
{
    match v {
        Some(JsonValue::Number(n)) => match &n.repr {
            NumberRepr::PosInt(u) => if *u <= i64::MAX as u64 {
                Some(*u as i64)
            } else {
                None
            },
            NumberRepr::NegInt(i) => Some(*i),
            _ => None,
        },
        _ => None,
    }
}

/// The double bits of a number value (`as_f64`).
pub fn as_f64_bits(v: Option<&JsonValue>) -> (r: Option<u64>)
    ensures
        r == f64_bits_of(deref_json(v)),
{
    match v {
        Some(JsonValue::Number(n)) => Some(n.f64_bits),
        _ => None,
    }
}

/// A boolean value (`as_bool`).
pub fn as_bool(v: Option<&JsonValue>) -> (r: Option<bool>)
    ensures
        r == bool_of(deref_json(v)),
{
    match v {
        Some(JsonValue::Bool(b)) => Some(*b),
        _ => None,
    }
}

/// The elements of an array value (`as_array`).
pub fn as_array(v: Option<&JsonValue>) -> (r: Option<&Vec<JsonValue>>)
    ensures
        match r {
            Some(items) => array_of(deref_json(v)) == Some(items@),
            None => array_of(deref_json(v)) is None,
        },
{
    match v {
        Some(JsonValue::Array(items)) => Some(items),
        _ => None,
    }
}

/// The member `key` of an optional object.
pub fn member_in<'a>(v: Option<&'a JsonValue>, key: &str) -> (r: Option<&'a JsonValue>)
    ensures
        deref_json(r) == member_of(deref_json(v), key@),
{
    match v {
        Some(x) => x.member(key),
        None => None,
    }
}

/// A value read as an identifier (see `text_of`).
pub fn text_value(v: Option<&JsonValue>) -> (r: String)
    ensures
        r@ == text_of(deref_json(v)),
{
    match v {
        Some(JsonValue::String(s)) => s.clone(),
        Some(JsonValue::Number(n)) => n.to_text(),
        _ => String::new(),
    }
}

} // verus!
