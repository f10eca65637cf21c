//! The built-in equalizer presets: ten named curves over the eighteen bands,
//! in whole decibels.

use vstd::prelude::*;

use crate::config::models::EQPreset;
use crate::double::{int_double_bits, int_f64_bits};
use crate::text::{owned, str_eq};

verus! {

/// The names of the built-in presets, in order.
pub open spec fn default_names() -> Seq<Seq<char>> {
    seq![
        "Flat"@,
        "Bass Boost"@,
        "Treble Boost"@,
        "Vocal"@,
        "Rock"@,
        "Pop"@,
        "Jazz"@,
        "Classical"@,
        "Electronic"@,
        "Loudness"@,
    ]
}

/// `name` is the name of a built-in preset.
pub open spec fn is_default_name(name: Seq<char>) -> bool {
    default_names().contains(name)
}

/// The gains in dB of the built-in preset at position `p`.
pub open spec fn default_db(p: int) -> Seq<int> {
    if p == 0 {
        seq![0, 0, 0, 0, 0, 0, 0, 0, 0, 0, 0, 0, 0, 0, 0, 0, 0, 0]
    } else if p == 1 {
        seq![10, 8, 6, 4, 2, 0, 0, 0, 0, 0, 0, 0, 0, 0, 0, 0, 0, 0]
    } else if p == 2 {
        seq![0, 0, 0, 0, 0, 0, 0, 0, 0, 0, 0, 2, 4, 6, 8, 10, 10, 10]
    } else if p == 3 {
        seq![-2, -2, -1, 0, 2, 4, 5, 5, 4, 3, 2, 1, 0, -1, -2, -2, -3, -3]
    } else if p == 4 {
        seq![5, 4, 3, 2, -1, -2, -1, 1, 3, 4, 5, 5, 4, 3, 2, 1, 0, 0]
    } else if p == 5 {
        seq![-2, -1, 0, 2, 4, 5, 4, 2, 0, -1, -2, -1, 0, 2, 3, 4, 3, 2]
    } else if p == 6 {
        seq![3, 2, 1, 2, -1, -1, 0, 1, 2, 3, 3, 3, 2, 2, 3, 3, 4, 4]
    } else if p == 7 {
        seq![4, 3, 2, 1, -1, -1, 0, 0, 1, 2, 2, 3, 3, 2, 1, 2, 3, 4]
    } else if p == 8 {
        seq![6, 5, 4, 2, 0, -2, -1, 0, 1, 2, 0, -1, 0, 2, 4, 5, 6, 5]
    } else {
        seq![6, 5, 3, 0, -2, -3, -2, 0, 0, 1, 2, 4, 5, 3, 0, -1, 2, 5]
    }
}

/// The gains of the built-in preset at position `p`, as double bits.
pub open spec fn default_gains(p: int) -> Seq<u64> {
    default_db(p).map_values(|d: int| int_double_bits(d))
}

/// `r` is the built-in preset at position `p`.
pub open spec fn is_default_preset(r: EQPreset, p: int) -> bool {
    r.name@ == default_names()[p] && r.gains@ == default_gains(p)
}

/// A preset from its name and whole-decibel gains.
fn preset(name: &str, db: &[i64]) -> (r: EQPreset)
    requires
        forall|k: int| 0 <= k < db@.len() ==> -100 <= #[trigger] db@[k] <= 100,
    ensures
        r.name@ == name@,
        r.gains@ == db@.map_values(|d: i64| d as int).map_values(|d: int| int_double_bits(d)),
{
    let mut gains: Vec<u64> = Vec::new();
    let mut i: usize = 0;
    while i < db.len()
        invariant
            i <= db@.len(),
            forall|k: int| 0 <= k < db@.len() ==> -100 <= #[trigger] db@[k] <= 100,
            gains@ == db@.take(i as int).map_values(|d: i64| int_double_bits(d as int)),
        decreases db@.len() - i,
    {
        gains.push(int_f64_bits(db[i]));
        assert(db@.take(i + 1).map_values(|d: i64| int_double_bits(d as int)) =~= db@.take(
            i as int,
        ).map_values(|d: i64| int_double_bits(d as int)).push(int_double_bits(db@[i as int] as int)));
        i = i + 1;
    }
    assert(db@.take(db@.len() as int) =~= db@);
    assert(gains@ =~= db@.map_values(|d: i64| d as int).map_values(|d: int| int_double_bits(d)));
    EQPreset { name: owned(name), gains }
}

/// The ten built-in presets, in order.
pub fn default_eq_presets() -> (r: Vec<EQPreset>)
    ensures
        r@.len() == 10,
        forall|p: int| 0 <= p < 10 ==> is_default_preset(#[trigger] r@[p], p),
{
    let mut r: Vec<EQPreset> = Vec::new();
    let t0: [i64; 18] = [0, 0, 0, 0, 0, 0, 0, 0, 0, 0, 0, 0, 0, 0, 0, 0, 0, 0];
    let t1: [i64; 18] = [10, 8, 6, 4, 2, 0, 0, 0, 0, 0, 0, 0, 0, 0, 0, 0, 0, 0];
    let t2: [i64; 18] = [0, 0, 0, 0, 0, 0, 0, 0, 0, 0, 0, 2, 4, 6, 8, 10, 10, 10];
    let t3: [i64; 18] = [-2, -2, -1, 0, 2, 4, 5, 5, 4, 3, 2, 1, 0, -1, -2, -2, -3, -3];
    let t4: [i64; 18] = [5, 4, 3, 2, -1, -2, -1, 1, 3, 4, 5, 5, 4, 3, 2, 1, 0, 0];
    let t5: [i64; 18] = [-2, -1, 0, 2, 4, 5, 4, 2, 0, -1, -2, -1, 0, 2, 3, 4, 3, 2];
    let t6: [i64; 18] = [3, 2, 1, 2, -1, -1, 0, 1, 2, 3, 3, 3, 2, 2, 3, 3, 4, 4];
    let t7: [i64; 18] = [4, 3, 2, 1, -1, -1, 0, 0, 1, 2, 2, 3, 3, 2, 1, 2, 3, 4];
    let t8: [i64; 18] = [6, 5, 4, 2, 0, -2, -1, 0, 1, 2, 0, -1, 0, 2, 4, 5, 6, 5];
    let t9: [i64; 18] = [6, 5, 3, 0, -2, -3, -2, 0, 0, 1, 2, 4, 5, 3, 0, -1, 2, 5];
    assert(t0@.map_values(|d: i64| d as int) =~= default_db(0));
    assert(t1@.map_values(|d: i64| d as int) =~= default_db(1));
    assert(t2@.map_values(|d: i64| d as int) =~= default_db(2));
    assert(t3@.map_values(|d: i64| d as int) =~= default_db(3));
    assert(t4@.map_values(|d: i64| d as int) =~= default_db(4));
    assert(t5@.map_values(|d: i64| d as int) =~= default_db(5));
    assert(t6@.map_values(|d: i64| d as int) =~= default_db(6));
    assert(t7@.map_values(|d: i64| d as int) =~= default_db(7));
    assert(t8@.map_values(|d: i64| d as int) =~= default_db(8));
    assert(t9@.map_values(|d: i64| d as int) =~= default_db(9));
    r.push(preset("Flat", &t0));
    r.push(preset("Bass Boost", &t1));
    r.push(preset("Treble Boost", &t2));
    r.push(preset("Vocal", &t3));
    r.push(preset("Rock", &t4));
    r.push(preset("Pop", &t5));
    r.push(preset("Jazz", &t6));
    r.push(preset("Classical", &t7));
    r.push(preset("Electronic", &t8));
    r.push(preset("Loudness", &t9));
    r
}

/// The names of the built-in presets, in order (each occurs once).
pub fn default_preset_names() -> (r: Vec<String>)
    ensures
        r@.len() == 10,
        forall|p: int| 0 <= p < 10 ==> (#[trigger] r@[p])@ == default_names()[p],
{
    let mut r: Vec<String> = Vec::new();
    r.push(owned("Flat"));
    r.push(owned("Bass Boost"));
    r.push(owned("Treble Boost"));
    r.push(owned("Vocal"));
    r.push(owned("Rock"));
    r.push(owned("Pop"));
    r.push(owned("Jazz"));
    r.push(owned("Classical"));
    r.push(owned("Electronic"));
    r.push(owned("Loudness"));
    r
}

/// `name` is the name of a built-in preset.
pub fn is_default_preset_name(name: &str) -> (r: bool)
    ensures
        r == is_default_name(name@),
{
    let names = default_preset_names();
    let mut i: usize = 0;
    while i < names.len()
        invariant
            i <= 10,
            names@.len() == 10,
            forall|p: int| 0 <= p < 10 ==> (#[trigger] names@[p])@ == default_names()[p],
            forall|p: int| 0 <= p < i ==> default_names()[p] != name@,
        decreases 10 - i,
    {
        if str_eq(names[i].as_str(), name) {
            assert(default_names()[i as int] == name@);
            return true;
        }
        i = i + 1;
    }
    assert(!default_names().contains(name@));
    false
}

} // verus!
