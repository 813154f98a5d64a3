//! IEEE 754 single-precision values, held by their encoding, and their
//! rendering with two decimal places.
//!
//! The value of a finite encoding is a whole number times a power of two, so
//! its nearest multiple of one hundredth is found in exact integer
//! arithmetic: nothing here computes in floating point.

use crate::decimal::{
    div_round_half_even, fixed2, is_digit, lemma_fixed2_shape, push_fixed2, round_half_even,
    times_pow2,
};
use vstd::arithmetic::power2::{
    lemma2_to64, lemma_pow2_adds, lemma_pow2_pos, lemma_pow2_strictly_increases, pow2,
};
use vstd::prelude::*;
use vstd::string::StringExecFns;

verus! {

/// A single-precision floating-point value, as the 32 bits that encode it:
/// one sign bit, eight exponent bits, twenty-three fraction bits.
#[derive(Clone, Copy, Debug, PartialEq, Eq, Structural)]
pub struct Binary32 {
    pub bits: u32,
}

impl Binary32 {
    /// Whether the sign bit is set. It may be set on a zero and on a NaN.
    pub open spec fn is_negative(self) -> bool {
        self.bits >= 0x8000_0000
    }

    /// The eight exponent bits, as a number.
    pub open spec fn exponent_field(self) -> nat {
        (self.bits as nat / 0x80_0000) % 0x100
    }

    /// The twenty-three fraction bits, as a number.
    pub open spec fn fraction_field(self) -> nat {
        self.bits as nat % 0x80_0000
    }

    /// Whether the encoding is that of no number.
    pub open spec fn is_nan(self) -> bool {
        self.exponent_field() == 0xff && self.fraction_field() != 0
    }

    /// Whether the encoding is that of plus or minus infinity.
    pub open spec fn is_infinite(self) -> bool {
        self.exponent_field() == 0xff && self.fraction_field() == 0
    }

    /// Whether the encoding is that of a number: a zero, a subnormal or a
    /// normal value.
    pub open spec fn is_finite(self) -> bool {
        self.exponent_field() < 0xff
    }

    /// The whole number `m` such that the magnitude of a finite value is
    /// `m * 2^exponent()`. A normal value has the implicit leading bit.
    pub open spec fn significand(self) -> nat {
        if self.exponent_field() == 0 {
            self.fraction_field()
        } else {
            self.fraction_field() + 0x80_0000
        }
    }

    /// The power of two that scales `significand()`.
    pub open spec fn exponent(self) -> int {
        if self.exponent_field() == 0 {
            -149
        } else {
            self.exponent_field() - 150
        }
    }

    /// The magnitude of a finite value in hundredths, rounded to the nearest
    /// whole number of them, ties to the even one.
    pub open spec fn hundredths(self) -> nat {
        if self.exponent() >= 0 {
            self.significand() * pow2(self.exponent() as nat) * 100
        } else {
            round_half_even(self.significand() * 100, pow2((-self.exponent()) as nat))
        }
    }

    /// The value written with two decimal places. A negative value, a
    /// negative zero included, has a minus sign in front; a NaN is written
    /// `NaN`, and the infinities `inf` and `-inf`.
    pub open spec fn fixed2(self) -> Seq<char> {
        if self.is_nan() {
            "NaN"@
        } else if self.is_infinite() {
            if self.is_negative() {
                "-inf"@
            } else {
                "inf"@
            }
        } else if self.is_negative() {
            seq!['-'] + fixed2(self.hundredths())
        } else {
            fixed2(self.hundredths())
        }
    }

    /// The value that `bits` encodes.
    pub fn from_bits(bits: u32) -> (value: Binary32)
        ensures
            value.bits == bits,
    {
        Binary32 { bits }
    }

    /// The encoding of the value.
    pub fn to_bits(&self) -> (bits: u32)
        ensures
            bits == self.bits,
    {
        self.bits
    }

    /// Appends the value, written with two decimal places, to `out`.
    pub fn push_fixed2(&self, out: &mut String)
        ensures
            final(out)@ == old(out)@ + self.fixed2(),
    {
        let fraction: u32 = self.bits % 0x80_0000;
        let field: u32 = (self.bits / 0x80_0000) % 0x100;
        let negative: bool = self.bits >= 0x8000_0000;
        if field == 0xff {
            if fraction != 0 {
                out.append("NaN");
            } else if negative {
                out.append("-inf");
            } else {
                out.append("inf");
            }
            return ;
        }
        if negative {
            out.push('-');
        }
        let ghost signed = out@;
        let significand: u128 = if field == 0 {
            fraction as u128
        } else {
            (fraction + 0x80_0000) as u128
        };
        if field >= 150 {
            let e: u32 = field - 150;
            proof {
                lemma_scaled_fits(significand as nat, e as nat);
            }
            let whole: u128 = times_pow2(significand, e);
            push_fixed2(out, whole, 0);
        } else {
            let k: u32 = if field == 0 {
                149
            } else {
                150 - field
            };
            if k >= 32 {
                proof {
                    lemma_rounds_to_zero(significand as nat, k as nat);
                }
                push_fixed2(out, 0, 0);
            } else {
                proof {
                    lemma2_to64();
                    lemma_pow2_strictly_increases(k as nat, 32);
                }
                let d: u128 = times_pow2(1, k);
                let h: u128 = div_round_half_even(significand * 100, d);
                push_fixed2(out, h / 100, (h % 100) as u8);
            }
        }
        assert(out@ == signed + fixed2(self.hundredths()));
    }
}

/// Whether `c` is a character that the text of some value holds: a digit, the
/// decimal point, the minus sign, or a letter of `NaN` and `inf`.
pub open spec fn is_numeral_char(c: char) -> bool {
    is_digit(c) || c == '.' || c == '-' || c == 'N' || c == 'a' || c == 'i' || c == 'n' || c == 'f'
}

/// The text of a value holds no other characters than those of numerals.
pub proof fn lemma_fixed2_chars(value: Binary32)
    ensures
        value.fixed2().len() >= 3,
        forall|i: int|
            0 <= i < value.fixed2().len() ==> is_numeral_char(#[trigger] value.fixed2()[i]),
{
    reveal_strlit("NaN");
    reveal_strlit("inf");
    reveal_strlit("-inf");
    lemma_fixed2_shape(value.hundredths());
}

/// The text of a finite value ends in a digit, a decimal point and two
/// digits, and holds no other decimal point.
pub proof fn lemma_fixed2_of_finite(value: Binary32)
    requires
        value.is_finite(),
    ensures
        value.fixed2().len() >= 4,
        is_digit(value.fixed2()[value.fixed2().len() - 4]),
        is_digit(value.fixed2()[value.fixed2().len() - 2]),
        is_digit(value.fixed2()[value.fixed2().len() - 1]),
        forall|i: int|
            0 <= i < value.fixed2().len() ==> (#[trigger] value.fixed2()[i] == '.' <==> i
                == value.fixed2().len() - 3),
{
    let h = value.hundredths();
    lemma_fixed2_shape(h);
    let digits = fixed2(h);
    assert(is_digit(digits[digits.len() - 4]));
    assert(is_digit(digits[digits.len() - 2]));
    assert(is_digit(digits[digits.len() - 1]));
    if value.is_negative() {
        let text = value.fixed2();
        assert(text == seq!['-'] + digits);
        assert forall|i: int| 0 <= i < text.len() implies (#[trigger] text[i] == '.' <==> i
            == text.len() - 3) by {
            if i > 0 {
                assert(text[i] == digits[i - 1]);
            }
        }
        assert(text[text.len() - 4] == digits[digits.len() - 4]);
        assert(text[text.len() - 2] == digits[digits.len() - 2]);
        assert(text[text.len() - 1] == digits[digits.len() - 1]);
    }
}

/// A significand of twenty-four bits, scaled by at most the 104th power of
/// two, stays below the 128th.
proof fn lemma_scaled_fits(m: nat, e: nat)
    requires
        m < 0x100_0000,
        e <= 104,
    ensures
        m * pow2(e) <= u128::MAX,
{
    lemma2_to64();
    lemma_pow2_adds(64, 64);
    lemma_pow2_adds(24, 104);
    lemma_pow2_pos(e);
    if e < 104 {
        lemma_pow2_strictly_increases(e, 104);
    }
    assert(pow2(128) == 0x1_0000_0000_0000_0000_0000_0000_0000_0000);
    assert(m * pow2(e) < pow2(24) * pow2(104)) by (nonlinear_arith)
        requires
            m < pow2(24),
            0 < pow2(e) <= pow2(104),
    ;
}

/// Below a thirty-second power of two, a significand's hundredfold is less
/// than half the divisor: the quotient rounds to zero.
proof fn lemma_rounds_to_zero(m: nat, k: nat)
    requires
        m < 0x100_0000,
        k >= 32,
    ensures
        round_half_even(m * 100, pow2(k)) == 0,
{
    lemma2_to64();
    if k > 32 {
        lemma_pow2_strictly_increases(32, k);
    }
    let n = m * 100;
    let d = pow2(k);
    assert(2 * n < d);
    vstd::arithmetic::div_mod::lemma_small_mod(n, d);
    vstd::arithmetic::div_mod::lemma_basic_div(n as int, d as int);
}

} // verus!
