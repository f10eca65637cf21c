//! IEEE-754 double precision bit patterns of small integers. Gains and other
//! real numbers are carried through the library as the bits of their double.

use vstd::prelude::*;

use crate::utils::{
    bit_length, lemma_bit_length_below, lemma_two_pow_bound, lemma_two_pow_mono,
    lemma_two_pow_positive, two_pow,
};

verus! {

/// 2^53: integers of smaller magnitude are exact doubles.
pub const EXACT_LIMIT: i64 = 0x20_0000_0000_0000;

/// The bits of the double that equals the integer `i` (|i| < 2^53): sign,
/// biased exponent and the 52 fraction bits below the leading one.
pub open spec fn int_double_bits(i: int) -> u64 {
    if i == 0 {
        0
    } else {
        let a: nat = if i < 0 { (-i) as nat } else { i as nat };
        let e: nat = (bit_length(a) - 1) as nat;
        let sign: int = if i < 0 { two_pow(63) as int } else { 0 };
        (sign + (1023 + e) * two_pow(52) + (a * two_pow((52 - e) as nat) - two_pow(52))) as u64
    }
}

proof fn lemma_two_pow_add(a: nat, b: nat)
    ensures
        two_pow(a + b) == two_pow(a) * two_pow(b),
    decreases a,
{
    if a > 0 {
        let a1 = (a - 1) as nat;
        lemma_two_pow_add(a1, b);
        let x = two_pow(a1);
        let y = two_pow(b);
        assert(two_pow(a1 + b) == x * y);
        assert(two_pow(a) == 2 * x);
        assert(((a + b) - 1) as nat == a1 + b);
        assert(two_pow(a + b) == 2 * two_pow(a1 + b));
        assert(2 * (x * y) == (2 * x) * y) by (nonlinear_arith);
    } else {
        assert(two_pow(a) == 1);
    }
}

proof fn lemma_two_pow_constants()
    ensures
        two_pow(52) == 0x10_0000_0000_0000,
        two_pow(53) == 0x20_0000_0000_0000,
        two_pow(63) == 0x8000_0000_0000_0000,
{
    reveal_with_fuel(two_pow, 64);
}

/// The position of the leading one of a positive number below 2^53.
fn leading_bit(a: u64) -> (e: u64)
    requires
        0 < a < 0x20_0000_0000_0000,
    ensures
        e == bit_length(a as nat) - 1,
        e <= 52,
        two_pow(e as nat) <= a < two_pow(e as nat + 1),
{
    proof {
        lemma_two_pow_constants();
        lemma_bit_length_below(a as nat, 53);
        lemma_two_pow_bound(a as nat);
    }
    let mut e: u64 = 0;
    let mut t: u64 = a;
    while t > 1
        invariant
            t >= 1,
            bit_length(a as nat) <= 53,
            e + bit_length(t as nat) == bit_length(a as nat),
        decreases t,
    {
        assert(bit_length(t as nat) == 1 + bit_length((t / 2) as nat));
        assert(t / 2 >= 1);
        assert(bit_length((t / 2) as nat) >= 1);
        t = t / 2;
        e = e + 1;
    }
    assert(bit_length(1) == 1) by {
        reveal_with_fuel(bit_length, 2);
    }
    e
}

/// 2^k for k at most 52.
fn pow2(k: u64) -> (p: u64)
    requires
        k <= 52,
    ensures
        p == two_pow(k as nat),
        1 <= p <= 0x10_0000_0000_0000,
{
    proof {
        lemma_two_pow_constants();
    }
    let mut p: u64 = 1;
    let mut j: u64 = 0;
    while j < k
        invariant
            k <= 52,
            j <= k,
            p == two_pow(j as nat),
            two_pow(52) == 0x10_0000_0000_0000,
        decreases k - j,
    {
        proof {
            lemma_two_pow_mono((j + 1) as nat, 52);
        }
        p = p * 2;
        j = j + 1;
    }
    proof {
        lemma_two_pow_positive(k as nat);
        lemma_two_pow_mono(k as nat, 52);
    }
    p
}

/// The bits of the double equal to `i` (`(i as f64).to_bits()`).
pub fn int_f64_bits(i: i64) -> (r: u64)
    requires
        -EXACT_LIMIT < i < EXACT_LIMIT,
    ensures
        r == int_double_bits(i as int),
{
    if i == 0 {
        return 0;
    }
    let neg = i < 0;
    let a: u64 = if neg { (0 - i) as u64 } else { i as u64 };
    let e = leading_bit(a);
    let p = pow2(52 - e);
    let ghost an: nat = a as nat;
    let ghost en: nat = e as nat;
    proof {
        lemma_two_pow_add(en, (52 - en) as nat);
        lemma_two_pow_add(en + 1, (52 - en) as nat);
        assert(en + (52 - en) == 52);
        assert(en + 1 + (52 - en) == 53);
        lemma_two_pow_constants();
        assert(two_pow(en) * p <= an * p) by (nonlinear_arith)
            requires
                two_pow(en) <= an,
                p >= 1,
        ;
        assert(an * p < two_pow(en + 1) * p) by (nonlinear_arith)
            requires
                an < two_pow(en + 1),
                p >= 1,
        ;
    }
    let m: u64 = a * p - 0x10_0000_0000_0000;
    let body: u64 = (1023 + e) * 0x10_0000_0000_0000 + m;
    if neg {
        0x8000_0000_0000_0000 + body
    } else {
        body
    }
}

} // verus!
