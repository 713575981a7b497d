//! Numbers.

use super::GMLNone;
use vstd::arithmetic::div_mod::{lemma_basic_div, lemma_div_is_ordered_by_denominator};
use vstd::arithmetic::power2::{lemma2_to64, lemma2_to64_rest, lemma_pow2_pos, lemma_pow2_strictly_increases, pow2};
use vstd::bits::lemma_u64_shr_is_div;
use vstd::prelude::*;

verus! {

/// The bit that carries a number's sign.
pub const SIGN_BIT: u64 = 0x8000_0000_0000_0000;

/// The bit pattern of positive infinity: every exponent bit set, no fraction bit.
pub const INFINITY_BITS: u64 = 0x7ff0_0000_0000_0000;

/// The weight of the lowest exponent bit, and of the bit that a normal
/// number's significand gains over its fraction: 2^52.
pub const FRACTION_SPAN: u64 = 0x0010_0000_0000_0000;

/// The host's number type: an IEEE 754 double, held by its 64-bit pattern.
///
/// Two values are equal when their bit patterns are, so a NaN equals itself
/// and the two zeros differ.
#[derive(Debug, Copy, Clone, Eq, PartialEq, Structural)]
pub struct GMLDouble {
    bits: u64,
}

impl GMLDouble {
    /// The bit pattern of the number.
    pub closed spec fn spec_bits(self) -> u64 {
        self.bits
    }

    /// Whether the sign bit is set.
    pub open spec fn is_negative(self) -> bool {
        self.spec_bits() >= SIGN_BIT
    }

    /// The bit pattern without the sign bit.
    pub open spec fn abs_bits(self) -> int {
        if self.is_negative() {
            self.spec_bits() - SIGN_BIT
        } else {
            self.spec_bits() as int
        }
    }

    /// Whether the number is a NaN.
    pub open spec fn is_nan(self) -> bool {
        self.abs_bits() > INFINITY_BITS
    }

    /// Whether the number is one of the two infinities.
    pub open spec fn is_infinite(self) -> bool {
        self.abs_bits() == INFINITY_BITS
    }

    /// The exponent field, 0 to 2047.
    pub open spec fn exponent(self) -> int {
        self.abs_bits() / (FRACTION_SPAN as int)
    }

    /// The fraction field, below 2^52.
    pub open spec fn fraction(self) -> int {
        self.abs_bits() % (FRACTION_SPAN as int)
    }

    /// The integer part of the absolute value of a finite number.
    ///
    /// A number with exponent field 0 is `fraction * 2^-1074`; any other is
    /// `(2^52 + fraction) * 2^(exponent - 1075)`.
    pub open spec fn magnitude_floor(self) -> nat {
        if self.exponent() == 0 {
            self.fraction() as nat / pow2(1074)
        } else if self.exponent() < 1075 {
            (FRACTION_SPAN + self.fraction()) as nat / pow2((1075 - self.exponent()) as nat)
        } else {
            (FRACTION_SPAN + self.fraction()) as nat * pow2((self.exponent() - 1075) as nat)
        }
    }

    /// The number rounded toward zero and held to the range of `i32`. A NaN
    /// gives 0, an infinity the bound on its side.
    pub open spec fn spec_to_i32(self) -> int {
        if self.is_nan() {
            0
        } else if self.is_infinite() {
            if self.is_negative() {
                i32::MIN as int
            } else {
                i32::MAX as int
            }
        } else if self.is_negative() {
            if self.magnitude_floor() >= 0x8000_0000 {
                i32::MIN as int
            } else {
                -(self.magnitude_floor() as int)
            }
        } else {
            if self.magnitude_floor() > i32::MAX {
                i32::MAX as int
            } else {
                self.magnitude_floor() as int
            }
        }
    }

    /// The number with the given bit pattern.
    pub fn from_bits(bits: u64) -> (value: GMLDouble)
        ensures
            value.spec_bits() == bits,
    {
        GMLDouble { bits }
    }

    /// The bit pattern of the number.
    pub fn to_bits(self) -> (bits: u64)
        ensures
            bits == self.spec_bits(),
    {
        self.bits
    }

    /// Rounds toward zero to an `i32`. A number beyond the range of `i32`
    /// gives the nearest bound, a NaN gives 0.
    pub fn to_i32(self) -> (n: i32)
        ensures
            n == self.spec_to_i32(),
    {
        let negative = self.bits >= SIGN_BIT;
        let abs: u64 = if negative {
            self.bits - SIGN_BIT
        } else {
            self.bits
        };
        if abs > INFINITY_BITS {
            return 0;
        }
        let exponent: u64 = abs / FRACTION_SPAN;
        let fraction: u64 = abs % FRACTION_SPAN;
        if exponent < 1023 {
            proof {
                lemma_below_one(self);
            }
            return 0;
        }
        if exponent >= 1054 {
            proof {
                lemma_beyond_i32(self);
            }
            return if negative {
                i32::MIN
            } else {
                i32::MAX
            };
        }
        let significand: u64 = FRACTION_SPAN + fraction;
        let shift: u64 = 1075 - exponent;
        let magnitude: u64 = significand >> shift;
        proof {
            lemma_u64_shr_is_div(significand, shift);
            lemma_within_i32(self);
        }
        if negative {
            -(magnitude as i32)
        } else {
            magnitude as i32
        }
    }
}

/// A finite number whose exponent field is below 1023 lies strictly between
/// -1 and 1.
proof fn lemma_below_one(value: GMLDouble)
    requires
        value.exponent() < 1023,
    ensures
        value.magnitude_floor() == 0,
{
    let e = value.exponent();
    let f = value.fraction();
    lemma2_to64_rest();
    if e == 0 {
        lemma_pow2_strictly_increases(53, 1074);
        lemma_basic_div(f, pow2(1074) as int);
    } else {
        let k = (1075 - e) as nat;
        if k > 53 {
            lemma_pow2_strictly_increases(53, k);
        }
        lemma_basic_div(FRACTION_SPAN + f, pow2(k) as int);
    }
}

/// A finite number whose exponent field is 1054 or more is at least 2^31 in
/// absolute value.
proof fn lemma_beyond_i32(value: GMLDouble)
    requires
        value.exponent() >= 1054,
    ensures
        value.magnitude_floor() >= 0x8000_0000,
{
    let e = value.exponent();
    let m = FRACTION_SPAN + value.fraction();
    lemma2_to64();
    if e < 1075 {
        let k = (1075 - e) as nat;
        if k < 21 {
            lemma_pow2_strictly_increases(k, 21);
        }
        lemma_pow2_pos(k);
        lemma_div_is_ordered_by_denominator(m, pow2(k) as int, pow2(21) as int);
    } else {
        let k = (e - 1075) as nat;
        lemma_pow2_pos(k);
        assert(m * pow2(k) >= m) by (nonlinear_arith)
            requires
                m >= 0,
                pow2(k) >= 1,
        ;
    }
}

/// A number whose exponent field is between 1023 and 1053 is below 2^31 in
/// absolute value.
proof fn lemma_within_i32(value: GMLDouble)
    requires
        1023 <= value.exponent() < 1054,
    ensures
        value.magnitude_floor() < 0x8000_0000,
{
    let e = value.exponent();
    let m = FRACTION_SPAN + value.fraction();
    let k = (1075 - e) as nat;
    lemma2_to64();
    if k > 22 {
        lemma_pow2_strictly_increases(22, k);
    }
    lemma_div_is_ordered_by_denominator(m, pow2(22) as int, pow2(k) as int);
}

/// The number that stands for nothing has the integer part 0.
pub proof fn lemma_nothing_is_zero(value: GMLDouble)
    requires
        value.is_none(),
    ensures
        value.spec_to_i32() == 0,
{
    lemma_below_one(value);
}

impl GMLNone for GMLDouble {
    open spec fn is_none(&self) -> bool {
        self.spec_bits() == 0
    }

    /// Positive zero.
    fn none() -> (nothing: GMLDouble)
        ensures
            nothing.spec_to_i32() == 0,
    {
        let nothing = GMLDouble { bits: 0 };
        proof {
            lemma_nothing_is_zero(nothing);
        }
        nothing
    }
}

} // verus!
