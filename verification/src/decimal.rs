//! Decimal numerals: digits of a natural number, rounding of a quotient to
//! the nearest integer, scaling by a power of two, and fixed-point text with
//! two decimal places.

use vstd::arithmetic::power2::{lemma_pow2_strictly_increases, lemma_pow2_unfold, pow2};
use vstd::prelude::*;

verus! {

/// The character that writes the digit `d`.
pub open spec fn digit_char(d: nat) -> char {
    if d == 0 {
        '0'
    } else if d == 1 {
        '1'
    } else if d == 2 {
        '2'
    } else if d == 3 {
        '3'
    } else if d == 4 {
        '4'
    } else if d == 5 {
        '5'
    } else if d == 6 {
        '6'
    } else if d == 7 {
        '7'
    } else if d == 8 {
        '8'
    } else {
        '9'
    }
}

/// Whether `c` is one of the ten decimal digits.
pub open spec fn is_digit(c: char) -> bool {
    c == '0' || c == '1' || c == '2' || c == '3' || c == '4' || c == '5' || c == '6' || c == '7'
        || c == '8' || c == '9'
}

/// The decimal numeral of `n`, most significant digit first, without
/// leading zeros (zero itself is written `0`).
pub open spec fn decimal(n: nat) -> Seq<char>
    decreases n,
{
    if n < 10 {
        seq![digit_char(n)]
    } else {
        decimal(n / 10).push(digit_char(n % 10))
    }
}

/// The two digits of `n % 100`, tens first.
pub open spec fn two_digits(n: nat) -> Seq<char> {
    seq![digit_char((n / 10) % 10), digit_char(n % 10)]
}

/// The numeral of `hundredths / 100` with exactly two decimal places:
/// `1234` is written `12.34`, and `5` is written `0.05`.
pub open spec fn fixed2(hundredths: nat) -> Seq<char> {
    decimal(hundredths / 100) + seq!['.'] + two_digits(hundredths % 100)
}

/// The integer nearest to `n / d`; where two are equally near, the even one.
pub open spec fn round_half_even(n: nat, d: nat) -> nat
    recommends
        d > 0,
{
    let q = n / d;
    let r = n % d;
    if 2 * r > d || (2 * r == d && q % 2 == 1) {
        q + 1
    } else {
        q
    }
}

/// A numeral has at least one character, and all of them are digits.
pub proof fn lemma_decimal_is_digits(n: nat)
    ensures
        decimal(n).len() >= 1,
        forall|i: int| 0 <= i < decimal(n).len() ==> is_digit(#[trigger] decimal(n)[i]),
    decreases n,
{
    if n >= 10 {
        lemma_decimal_is_digits(n / 10);
    }
}

/// A fixed-point text ends in a digit, a decimal point and two digits; the
/// characters before the point are digits, and there is at least one.
pub proof fn lemma_fixed2_shape(hundredths: nat)
    ensures
        fixed2(hundredths).len() >= 4,
        forall|i: int|
            0 <= i < fixed2(hundredths).len() ==> (#[trigger] fixed2(hundredths)[i] == '.' <==> i
                == fixed2(hundredths).len() - 3),
        forall|i: int|
            0 <= i < fixed2(hundredths).len() && i != fixed2(hundredths).len() - 3 ==> is_digit(
                #[trigger] fixed2(hundredths)[i],
            ),
{
    lemma_decimal_is_digits(hundredths / 100);
}

/// Rounding keeps the order of the numerators.
pub proof fn lemma_round_half_even_is_ordered(n1: nat, n2: nat, d: nat)
    requires
        n1 <= n2,
        d > 0,
    ensures
        round_half_even(n1, d) <= round_half_even(n2, d),
{
    vstd::arithmetic::div_mod::lemma_div_is_ordered(n1 as int, n2 as int, d as int);
    vstd::arithmetic::div_mod::lemma_fundamental_div_mod(n1 as int, d as int);
    vstd::arithmetic::div_mod::lemma_fundamental_div_mod(n2 as int, d as int);
    let q1 = n1 / d;
    let q2 = n2 / d;
    if q1 == q2 {
        assert(n1 % d <= n2 % d);
    } else {
        assert(q1 + 1 <= q2);
    }
}

/// The digit `d` as a character.
pub fn digit(d: u8) -> (c: char)
    requires
        d < 10,
    ensures
        c == digit_char(d as nat),
{
    if d == 0 {
        '0'
    } else if d == 1 {
        '1'
    } else if d == 2 {
        '2'
    } else if d == 3 {
        '3'
    } else if d == 4 {
        '4'
    } else if d == 5 {
        '5'
    } else if d == 6 {
        '6'
    } else if d == 7 {
        '7'
    } else if d == 8 {
        '8'
    } else {
        '9'
    }
}

/// `n / d` rounded to the nearest integer, ties to the even one.
pub fn div_round_half_even(n: u128, d: u128) -> (q: u128)
    requires
        d > 0,
    ensures
        q == round_half_even(n as nat, d as nat),
{
    let q: u128 = n / d;
    let r: u128 = n % d;
    let rest: u128 = d - r;
    if r > rest || (r == rest && q % 2 == 1) {
        assert(q < u128::MAX) by {
            assert(d >= 2);
            assert(q * 2 <= n) by (nonlinear_arith)
                requires
                    q == n / d,
                    d >= 2,
                    n >= 0,
            ;
        }
        q + 1
    } else {
        q
    }
}

/// `m` times the `e`-th power of two.
pub fn times_pow2(m: u128, e: u32) -> (r: u128)
    requires
        m * pow2(e as nat) <= u128::MAX,
    ensures
        r == m * pow2(e as nat),
{
    let mut r: u128 = m;
    let mut i: u32 = 0;
    proof {
        vstd::arithmetic::power2::lemma2_to64();
    }
    while i < e
        invariant
            i <= e,
            r == m * pow2(i as nat),
            m * pow2(e as nat) <= u128::MAX,
        decreases e - i,
    {
        proof {
            let p = pow2(i as nat);
            let next = pow2((i + 1) as nat);
            lemma_pow2_unfold((i + 1) as nat);
            if i + 1 < e {
                lemma_pow2_strictly_increases((i + 1) as nat, e as nat);
            }
            assert(m * next == 2 * (m * p)) by (nonlinear_arith)
                requires
                    next == 2 * p,
            ;
            assert(m * next <= m * pow2(e as nat)) by (nonlinear_arith)
                requires
                    next <= pow2(e as nat),
                    m >= 0,
            ;
        }
        r = r * 2;
        i = i + 1;
    }
    r
}

/// Appends the decimal numeral of `n` to `out`.
pub fn push_decimal(out: &mut String, n: u128)
    ensures
        final(out)@ == old(out)@ + decimal(n as nat),
    decreases n,
{
    if n >= 10 {
        push_decimal(out, n / 10);
    }
    out.push(digit((n % 10) as u8));
}

/// Appends `whole`, a decimal point and the two digits of `cents` to `out`.
pub fn push_fixed2(out: &mut String, whole: u128, cents: u8)
    requires
        cents < 100,
    ensures
        final(out)@ == old(out)@ + fixed2(whole as nat * 100 + cents as nat),
{
    push_decimal(out, whole);
    out.push('.');
    out.push(digit(cents / 10));
    out.push(digit(cents % 10));
}

} // verus!
