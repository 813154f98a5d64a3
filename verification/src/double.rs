//! Whole numbers as a double-precision floating-point value holds them.
//!
//! A double has 53 significant bits. A whole number of up to 53 bits is held
//! as it is; a longer one is rounded to the nearest number that 53 bits can
//! write, ties to the one whose last kept bit is zero.

use crate::decimal::{div_round_half_even, lemma_round_half_even_is_ordered, round_half_even};
use vstd::prelude::*;

verus! {

/// The first whole number that needs more than 53 bits.
pub const DOUBLE_LIMIT: u64 = 0x20_0000_0000_0000;

/// The distance between neighbouring doubles around `n`: one below the 53rd
/// power of two, and twice as much with every bit beyond.
pub open spec fn spacing(n: nat) -> nat
    decreases n,
{
    if n < DOUBLE_LIMIT {
        1
    } else {
        2 * spacing(n / 2)
    }
}

/// The whole number that the double nearest to `figure` holds.
pub open spec fn as_double(figure: u64) -> nat {
    round_half_even(figure as nat, spacing(figure as nat)) * spacing(figure as nat)
}

/// Beyond 53 bits a number lies between 2^52 and 2^53 times its spacing, and
/// the spacing is at least two.
pub proof fn lemma_spacing_bounds(n: nat)
    ensures
        spacing(n) >= 1,
        n < 0x20_0000_0000_0000 ==> spacing(n) == 1,
        n >= 0x20_0000_0000_0000 ==> spacing(n) >= 2 && spacing(n) * 0x10_0000_0000_0000 <= n
            < spacing(n) * 0x20_0000_0000_0000,
    decreases n,
{
    if n >= DOUBLE_LIMIT {
        lemma_spacing_bounds(n / 2);
        assert(spacing(n) == 2 * spacing(n / 2));
    }
}

/// The distance between neighbouring doubles around `figure`.
pub fn double_spacing(figure: u64) -> (ulp: u64)
    ensures
        ulp == spacing(figure as nat),
        1 <= ulp < 4096,
    decreases figure,
{
    proof {
        lemma_spacing_bounds(figure as nat);
    }
    if figure < DOUBLE_LIMIT {
        1
    } else {
        proof {
            lemma_spacing_bounds((figure / 2) as nat);
        }
        2 * double_spacing(figure / 2)
    }
}

/// The whole number that the double nearest to `figure` holds.
pub fn to_double(figure: u64) -> (held: u128)
    ensures
        held == as_double(figure),
        held <= 0x2_0000_0000_0000_0000,
{
    let ulp: u64 = double_spacing(figure);
    let q: u128 = div_round_half_even(figure as u128, ulp as u128);
    proof {
        lemma_as_double_bounds(figure);
        assert(q * ulp == as_double(figure));
    }
    q * (ulp as u128)
}

/// The number held is a multiple of the spacing and lies within the same
/// reach of doubles as the figure: from 2^52 to 2^53 times the spacing.
pub proof fn lemma_as_double_bounds(figure: u64)
    ensures
        as_double(figure) <= 0x2_0000_0000_0000_0000,
        figure < 0x20_0000_0000_0000 ==> as_double(figure) == figure,
        figure >= 0x20_0000_0000_0000 ==> spacing(figure as nat) * 0x10_0000_0000_0000
            <= as_double(figure) <= spacing(figure as nat) * 0x20_0000_0000_0000,
{
    let n = figure as nat;
    let s = spacing(n);
    lemma_spacing_bounds(n);
    let q = round_half_even(n, s);
    if figure < DOUBLE_LIMIT {
        assert(q == n);
    } else {
        let low: nat = 0x10_0000_0000_0000;
        let high: nat = 0x20_0000_0000_0000;
        assert(round_half_even(s * low, s) == low) by {
            lemma_round_of_multiple(low, s);
        }
        assert(round_half_even(s * high, s) == high) by {
            lemma_round_of_multiple(high, s);
        }
        lemma_round_half_even_is_ordered(s * low, n, s);
        lemma_round_half_even_is_ordered(n, s * high, s);
        assert(low * s <= q * s <= high * s) by (nonlinear_arith)
            requires
                low <= q <= high,
                s >= 0,
        ;
        assert(s * low == low * s && s * high == high * s) by (nonlinear_arith);
    }
}

/// A multiple of the divisor rounds to the factor.
proof fn lemma_round_of_multiple(k: nat, d: nat)
    requires
        d > 0,
    ensures
        round_half_even(d * k, d) == k,
{
    assert(d * k == k * d) by (nonlinear_arith);
    vstd::arithmetic::div_mod::lemma_fundamental_div_mod_converse(
        (d * k) as int,
        d as int,
        k as int,
        0,
    );
}

/// The doubles nearest to two figures are in the order of the figures.
pub proof fn lemma_as_double_is_ordered(a: u64, b: u64)
    requires
        a <= b,
    ensures
        as_double(a) <= as_double(b),
{
    let sa = spacing(a as nat);
    let sb = spacing(b as nat);
    lemma_spacing_bounds(a as nat);
    lemma_spacing_bounds(b as nat);
    lemma_as_double_bounds(a);
    lemma_as_double_bounds(b);
    lemma_spacing_is_ordered(a as nat, b as nat);
    if sa == sb {
        lemma_round_half_even_is_ordered(a as nat, b as nat, sa);
        let qa = round_half_even(a as nat, sa);
        let qb = round_half_even(b as nat, sa);
        assert(qa * sa <= qb * sa) by (nonlinear_arith)
            requires
                qa <= qb,
                sa >= 0,
        ;
    } else {
        lemma_spacing_doubles(a as nat, b as nat);
        let high: nat = 0x20_0000_0000_0000;
        let low: nat = 0x10_0000_0000_0000;
        assert(sa * high <= sb * low) by (nonlinear_arith)
            requires
                2 * sa <= sb,
                high == 2 * low,
                low >= 0,
        ;
        if a < DOUBLE_LIMIT {
            assert(as_double(a) == a);
            assert(a < sa * high);
        }
    }
}

/// The spacing does not shrink as the number grows.
proof fn lemma_spacing_is_ordered(a: nat, b: nat)
    requires
        a <= b,
    ensures
        spacing(a) <= spacing(b),
    decreases b,
{
    lemma_spacing_bounds(b);
    if a >= DOUBLE_LIMIT {
        lemma_spacing_is_ordered(a / 2, b / 2);
    }
}

/// Where the spacing grows between two numbers, it at least doubles.
proof fn lemma_spacing_doubles(a: nat, b: nat)
    requires
        a <= b,
        spacing(a) != spacing(b),
    ensures
        2 * spacing(a) <= spacing(b),
    decreases b,
{
    lemma_spacing_bounds(b);
    lemma_spacing_is_ordered(a, b);
    if a >= DOUBLE_LIMIT {
        lemma_spacing_doubles(a / 2, b / 2);
    }
}

} // verus!
