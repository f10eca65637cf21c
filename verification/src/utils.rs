//! Formatting helpers: durations, sizes and truncated text.

use vstd::prelude::*;
use vstd::string::*;

use crate::text::{decimal, decimal_2, digit_char, owned, push_char, push_decimal, push_decimal_2};

verus! {

/// "M:SS" for a number of seconds.
pub open spec fn duration_text(secs: nat) -> Seq<char> {
    decimal(secs / 60) + seq![':'] + decimal_2(secs % 60)
}

/// "H:MM:SS" from one hour on, "M:SS" below.
pub open spec fn duration_long_text(secs: nat) -> Seq<char> {
    if secs >= 3600 {
        decimal(secs / 3600) + seq![':'] + decimal_2((secs % 3600) / 60) + seq![':'] + decimal_2(
            secs % 60,
        )
    } else {
        duration_text(secs)
    }
}

/// Format seconds as "M:SS".
pub fn format_duration(secs: u64) -> (r: String)
    ensures
        r@ == duration_text(secs as nat),
{
    let minutes = secs / 60;
    let seconds = secs % 60;
    let mut s = String::new();
    push_decimal(&mut s, minutes);
    push_char(&mut s, ':');
    push_decimal_2(&mut s, seconds);
    assert(s@ =~= duration_text(secs as nat));
    s
}

/// Format seconds as "H:MM:SS" when >= 1 hour, otherwise "M:SS".
pub fn format_duration_long(secs: u64) -> (r: String)
    ensures
        r@ == duration_long_text(secs as nat),
{
    if secs >= 3600 {
        let hours = secs / 3600;
        let minutes = (secs % 3600) / 60;
        let seconds = secs % 60;
        let mut s = String::new();
        push_decimal(&mut s, hours);
        push_char(&mut s, ':');
        push_decimal_2(&mut s, minutes);
        push_char(&mut s, ':');
        push_decimal_2(&mut s, seconds);
        assert(s@ =~= duration_long_text(secs as nat));
        s
    } else {
        format_duration(secs)
    }
}

pub const KB: u64 = 1024;

pub const MB: u64 = 1048576;

pub const GB: u64 = 1073741824;

/// 2 to the power `k`.
pub open spec fn two_pow(k: nat) -> nat
    decreases k,
{
    if k == 0 {
        1
    } else {
        2 * two_pow((k - 1) as nat)
    }
}

/// The number of binary digits of `b` (0 for 0).
pub open spec fn bit_length(b: nat) -> nat
    decreases b,
{
    if b == 0 {
        0
    } else {
        1 + bit_length(b / 2)
    }
}

/// `n / d` rounded to the nearest integer, ties to the even one.
pub open spec fn round_div(n: nat, d: nat) -> nat
    recommends
        d > 0,
{
    let q = n / d;
    let r = n % d;
    if 2 * r > d || (2 * r == d && q % 2 == 1) {
        q + 1
    } else {
        q
    }
}

/// The value a `u64` takes as a double: rounded to 53 significant bits, ties to even.
pub open spec fn as_double(b: nat) -> nat {
    if bit_length(b) <= 53 {
        b
    } else {
        let u = two_pow((bit_length(b) - 53) as nat);
        round_div(b, u) * u
    }
}

/// A count of tenths written with one decimal: "12.3".
pub open spec fn one_decimal(tenths: nat) -> Seq<char> {
    decimal(tenths / 10) + seq!['.', digit_char(tenths % 10)]
}

/// The size text: bytes below 1 KB as "N B", else the value in the largest
/// unit (KB, MB, GB, of 1024) it reaches, to one decimal, as `{:.1}` prints
/// the double `bytes / unit`.
pub open spec fn size_text(bytes: nat) -> Seq<char> {
    if bytes >= GB {
        one_decimal(round_div(as_double(bytes) * 10, GB as nat)) + " GB"@
    } else if bytes >= MB {
        one_decimal(round_div(as_double(bytes) * 10, MB as nat)) + " MB"@
    } else if bytes >= KB {
        one_decimal(round_div(as_double(bytes) * 10, KB as nat)) + " KB"@
    } else {
        decimal(bytes) + " B"@
    }
}

pub proof fn lemma_two_pow_positive(k: nat)
    ensures
        two_pow(k) >= 1,
    decreases k,
{
    if k > 0 {
        lemma_two_pow_positive((k - 1) as nat);
    }
}

pub proof fn lemma_two_pow_bound(b: nat)
    ensures
        b < two_pow(bit_length(b)),
        b > 0 ==> two_pow((bit_length(b) - 1) as nat) <= b,
    decreases b,
{
    if b > 0 {
        lemma_two_pow_bound(b / 2);
    }
}

pub proof fn lemma_two_pow_mono(a: nat, b: nat)
    requires
        a <= b,
    ensures
        two_pow(a) <= two_pow(b),
    decreases b,
{
    if a < b {
        lemma_two_pow_mono(a, (b - 1) as nat);
    }
}

pub proof fn lemma_bit_length_below(b: nat, k: nat)
    requires
        b < two_pow(k),
    ensures
        bit_length(b) <= k,
    decreases k,
{
    if b > 0 {
        if k == 0 {
        } else {
            lemma_bit_length_below(b / 2, (k - 1) as nat);
        }
    }
}

proof fn lemma_bit_length_bound(b: nat)
    requires
        b < 0x1_0000_0000_0000_0000,
    ensures
        bit_length(b) <= 64,
{
    reveal_with_fuel(two_pow, 65);
    assert(two_pow(64) == 0x1_0000_0000_0000_0000);
    lemma_bit_length_below(b, 64);
}

/// The value of `b` as a double (see `as_double`).
fn double_value(b: u64) -> (r: u128)
    ensures
        r == as_double(b as nat),
        r <= 0x2_0000_0000_0000_0000,
{
    proof {
        lemma_bit_length_bound(b as nat);
    }
    let mut len: u64 = 0;
    let mut t: u64 = b;
    while t > 0
        invariant
            len + bit_length(t as nat) == bit_length(b as nat),
            bit_length(b as nat) <= 64,
        decreases t,
    {
        t = t / 2;
        len = len + 1;
    }
    if len <= 53 {
        return b as u128;
    }
    proof {
        lemma_bit_length_bound(b as nat);
        lemma_two_pow_bound(b as nat);
    }
    let k = len - 53;
    let mut u: u128 = 1;
    let mut i: u64 = 0;
    while i < k
        invariant
            i <= k,
            k <= 11,
            u == two_pow(i as nat),
            u <= 2048,
        decreases k - i,
    {
        proof {
            lemma_two_pow_mono((i + 1) as nat, 11);
            reveal_with_fuel(two_pow, 12);
            assert(two_pow(11) == 2048);
        }
        u = u * 2;
        i = i + 1;
    }
    proof {
        lemma_two_pow_positive(k as nat);
    }
    let bb = b as u128;
    let q = bb / u;
    let rem = bb % u;
    proof {
        vstd::arithmetic::div_mod::lemma_fundamental_div_mod(bb as int, u as int);
        assert(q * u <= bb) by (nonlinear_arith)
            requires
                bb == u * q + rem,
                rem >= 0,
        ;
        assert((q + 1) * u == q * u + u) by (nonlinear_arith);
    }
    let rounded = if 2 * rem > u || (2 * rem == u && q % 2 == 1) {
        q + 1
    } else {
        q
    };
    rounded * u
}

/// `n / d` rounded to nearest, ties to even (see `round_div`).
fn round_div_exec(n: u128, d: u128) -> (r: u128)
    requires
        0 < d <= 0x1_0000_0000,
        n <= 0x20_0000_0000_0000_0000,
    ensures
        r == round_div(n as nat, d as nat),
{
    let q = n / d;
    let rem = n % d;
    proof {
        vstd::arithmetic::div_mod::lemma_div_is_ordered_by_denominator(n as int, 1, d as int);
    }
    if 2 * rem > d || (2 * rem == d && q % 2 == 1) {
        q + 1
    } else {
        q
    }
}

/// Appends a count of tenths with one decimal.
fn push_one_decimal(s: &mut String, tenths: u128)
    requires
        tenths <= u64::MAX,
    ensures
        final(s)@ == old(s)@ + one_decimal(tenths as nat),
{
    push_decimal(s, (tenths / 10) as u64);
    push_char(s, '.');
    let d = (tenths % 10) as u64;
    let mut one = String::new();
    push_decimal(&mut one, d);
    s.append(one.as_str());
    assert(decimal(d as nat) =~= seq![digit_char(d as nat)]);
    assert(old(s)@ + one_decimal(tenths as nat) =~= final(s)@);
}

/// Format byte count as human-readable size.
pub fn format_size(bytes: u64) -> (r: String)
    ensures
        r@ == size_text(bytes as nat),
{
    let mut s = String::new();
    if bytes >= KB {
        let unit: u128 = if bytes >= GB {
            GB as u128
        } else if bytes >= MB {
            MB as u128
        } else {
            KB as u128
        };
        let d = double_value(bytes);
        let t = round_div_exec(d * 10, unit);
        proof {
            vstd::arithmetic::div_mod::lemma_div_is_ordered(
                (d * 10) as int,
                0x20_0000_0000_0000_0000,
                unit as int,
            );
        }
        assert(t <= u64::MAX) by {
            assert(0x20_0000_0000_0000_0000int / 1024 < u64::MAX);
            assert(round_div((d * 10) as nat, unit as nat) <= (d * 10) as nat / (unit as nat) + 1);
            vstd::arithmetic::div_mod::lemma_div_is_ordered_by_denominator(
                0x20_0000_0000_0000_0000,
                1024,
                unit as int,
            );
        }
        push_one_decimal(&mut s, t);
        if bytes >= GB {
            s.append(" GB");
        } else if bytes >= MB {
            s.append(" MB");
        } else {
            s.append(" KB");
        }
    } else {
        push_decimal(&mut s, bytes);
        s.append(" B");
    }
    assert(s@ =~= size_text(bytes as nat));
    s
}

/// The first `max_len` characters of `text` when it is longer than that: with
/// "..." in place of the last three of them from `max_len` 4 on.
pub open spec fn truncated(text: Seq<char>, max_len: nat) -> Seq<char> {
    if max_len < 4 {
        if text.len() <= max_len {
            text
        } else {
            text.take(max_len as int)
        }
    } else if text.len() <= max_len {
        text
    } else {
        text.take(max_len - 3) + "..."@
    }
}

/// Truncate text to max_len characters, appending "..." if truncated.
pub fn truncate(text: &str, max_len: usize) -> (r: String)
    ensures
        r@ == truncated(text@, max_len as nat),
{
    let char_count = text.unicode_len();
    if max_len < 4 {
        let keep = if char_count <= max_len {
            char_count
        } else {
            max_len
        };
        let r = owned(text.substring_char(0, keep));
        assert(char_count <= max_len ==> text@.subrange(0, keep as int) =~= text@);
        return r;
    }
    if char_count <= max_len {
        owned(text)
    } else {
        let mut r = owned(text.substring_char(0, max_len - 3));
        r.append("...");
        r
    }
}

} // verus!
