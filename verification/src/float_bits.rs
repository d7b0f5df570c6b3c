//! Bit-level view of IEEE 754 binary64 values.
//!
//! The library carries every floating-point quantity as its raw bit pattern
//! in a `u64`. This module gives the pure integer reading of such a pattern:
//! sign, exponent and fraction fields, NaN detection, the standard ordering
//! of non-NaN values, the `min`/`max` selection rules, significand
//! normalization, and the exact conversion of 32-bit integers. All of it is
//! ordinary verified code; nothing here is trusted.
use vstd::arithmetic::power2::lemma_pow2_unfold;
use vstd::arithmetic::power2::lemma2_to64;
use vstd::arithmetic::power2::lemma2_to64_rest;
use vstd::arithmetic::power2::pow2;
use vstd::prelude::*;

verus! {

/// Bit weight of the sign bit of a binary64 pattern (2^63).
pub const SIGN_UNIT: u64 = 0x8000_0000_0000_0000;
/// Bit weight of the least exponent bit of a binary64 pattern (2^52).
pub const FRAC_UNIT: u64 = 0x0010_0000_0000_0000;
/// Exponent field value reserved for infinities and NaNs.
pub const EXP_SPECIAL: u64 = 0x7FF;
/// Bit pattern of positive infinity.
pub const POS_INF_BITS: u64 = 0x7FF0_0000_0000_0000;
/// Bit pattern of negative infinity.
pub const NEG_INF_BITS: u64 = 0xFFF0_0000_0000_0000;
/// Bit pattern of the binary64 value 1.0.
pub const ONE_BITS: u64 = 0x3FF0_0000_0000_0000;
/// Bit pattern of the binary64 value 2^32.
pub const TWO_POW32_BITS: u64 = 0x41F0_0000_0000_0000;
/// Bit pattern of the binary64 value 2^64.
pub const TWO_POW64_BITS: u64 = 0x43F0_0000_0000_0000;
/// Bit pattern of the binary64 value 2^65.
pub const TWO_POW65_BITS: u64 = 0x4400_0000_0000_0000;

/// Sign field of the pattern: 0 for positive, 1 for negative.
pub open spec fn sign_of(a: u64) -> u64 {
    a / SIGN_UNIT
}

/// Magnitude of the pattern: the 63 bits below the sign bit.
pub open spec fn mag_of(a: u64) -> u64 {
    a % SIGN_UNIT
}

/// Biased exponent field of the pattern (11 bits).
pub open spec fn exp_of(a: u64) -> u64 {
    mag_of(a) / FRAC_UNIT
}

/// Fraction field of the pattern (52 bits).
pub open spec fn frac_of(a: u64) -> u64 {
    mag_of(a) % FRAC_UNIT
}

/// The pattern encodes a NaN: special exponent and a nonzero fraction.
pub open spec fn is_nan_bits(a: u64) -> bool {
    exp_of(a) == EXP_SPECIAL && frac_of(a) != 0
}

/// The IEEE 754 `<` relation on two patterns. NaN compares less than
/// nothing; the two zeros are equal; otherwise negative values order by
/// descending magnitude and positive values by ascending magnitude.
pub open spec fn spec_f64_lt(a: u64, b: u64) -> bool {
    &&& !is_nan_bits(a)
    &&& !is_nan_bits(b)
    &&& if sign_of(a) == 1 && sign_of(b) == 1 {
        mag_of(b) < mag_of(a)
    } else if sign_of(a) == 1 && sign_of(b) == 0 {
        !(mag_of(a) == 0 && mag_of(b) == 0)
    } else if sign_of(a) == 0 && sign_of(b) == 1 {
        false
    } else {
        mag_of(a) < mag_of(b)
    }
}

/// The value selected by `min` on two patterns: the smaller one, or the
/// other argument when one is NaN.
pub open spec fn spec_f64_min(a: u64, b: u64) -> u64 {
    if spec_f64_lt(a, b) || is_nan_bits(b) {
        a
    } else {
        b
    }
}

/// The value selected by `max` on two patterns: the larger one, or the
/// other argument when one is NaN.
pub open spec fn spec_f64_max(a: u64, b: u64) -> u64 {
    if spec_f64_lt(b, a) || is_nan_bits(b) {
        a
    } else {
        b
    }
}

/// The significand after doubling a positive value until it carries 53 bits.
pub open spec fn norm_m(m: nat) -> nat
    decreases 2 * FRAC_UNIT - m,
{
    if m == 0 {
        0
    } else if m >= FRAC_UNIT {
        m
    } else {
        norm_m(2 * m)
    }
}

/// The number of doublings that `norm_m` applies.
pub open spec fn norm_s(m: nat) -> nat
    decreases 2 * FRAC_UNIT - m,
{
    if m == 0 {
        0
    } else if m >= FRAC_UNIT {
        0
    } else {
        1 + norm_s(2 * m)
    }
}

proof fn lemma_norm(m: nat)
    requires
        1 <= m < 0x20_0000_0000_0000,
    ensures
        norm_m(m) == m * pow2(norm_s(m)),
        FRAC_UNIT <= norm_m(m) < 0x20_0000_0000_0000,
        norm_s(m) <= 52,
    decreases 2 * FRAC_UNIT - m,
{
    lemma2_to64();
    if m >= FRAC_UNIT {
        assert(norm_m(m) == m * pow2(0));
    } else {
        lemma_norm(2 * m);
        lemma_pow2_unfold(norm_s(m));
        assert(2 * m * pow2(norm_s(2 * m)) == m * (2 * pow2(norm_s(2 * m)))) by (nonlinear_arith);
        if norm_s(2 * m) == 52 {
            lemma2_to64_rest();
            assert(2 * m * pow2(52) >= 0x20_0000_0000_0000) by (nonlinear_arith)
                requires
                    m >= 1nat,
                    pow2(52) == 0x10_0000_0000_0000nat,
            ;
        }
    }
}

/// Doubles a positive significand until it carries 53 bits, returning the
/// scaled significand and the number of doublings.
pub(crate) fn normalize(m: u64) -> (r: (u64, u32))
    requires
        1 <= m < 0x20_0000_0000_0000,
    ensures
        r.0 == norm_m(m as nat),
        r.1 == norm_s(m as nat),
        FRAC_UNIT <= r.0 < 0x20_0000_0000_0000,
        r.1 <= 52,
    decreases 2 * FRAC_UNIT - m,
{
    proof {
        lemma_norm(m as nat);
    }
    if m >= FRAC_UNIT {
        (m, 0)
    } else {
        let (mm, s) = normalize(2 * m);
        (mm, s + 1)
    }
}

/// The bit pattern of the binary64 value of a 32-bit unsigned integer; every
/// such integer is represented exactly, with a normalized significand.
pub open spec fn spec_from_u32(v: u32) -> u64 {
    if v == 0 {
        0
    } else {
        ((1075 - norm_s(v as nat)) * FRAC_UNIT + (norm_m(v as nat) - FRAC_UNIT)) as u64
    }
}

/// Converts a 32-bit unsigned integer to its binary64 bit pattern. The
/// result is a non-negative finite value below 2^32, and at least 1.0 for a
/// nonzero integer.
pub fn from_u32_bits(v: u32) -> (r: u64)
    ensures
        r == spec_from_u32(v),
        v == 0 ==> r == 0,
        sign_of(r) == 0,
        !is_nan_bits(r),
        exp_of(r) != EXP_SPECIAL,
        mag_of(r) <= TWO_POW32_BITS,
        v >= 1 ==> mag_of(r) >= ONE_BITS,
{
    if v == 0 {
        return 0;
    }
    let (m, s) = normalize(v as u64);
    proof {
        lemma_norm(v as nat);
        assert(s >= 21) by {
            if s <= 20 {
                if (s as nat) < 20 {
                    vstd::arithmetic::power2::lemma_pow2_strictly_increases(s as nat, 20);
                }
                lemma2_to64();
                assert((v as int) * pow2(s as nat) < 0x10_0000_0000_0000) by (nonlinear_arith)
                    requires
                        0 <= (v as int) < 0x1_0000_0000,
                        0 <= pow2(s as nat) <= 0x10_0000,
                ;
            }
        }
        assert(1023 <= 1075 - s <= 1054);
    }
    (1075 - s as u64) * FRAC_UNIT + (m - FRAC_UNIT)
}

/// Whether the pattern encodes a NaN.
pub fn f64_is_nan(a: u64) -> (r: bool)
    ensures
        r == is_nan_bits(a),
{
    let mag: u64 = a % SIGN_UNIT;
    mag / FRAC_UNIT == EXP_SPECIAL && mag % FRAC_UNIT != 0
}

/// The IEEE 754 `<` test on two patterns.
pub fn f64_lt(a: u64, b: u64) -> (r: bool)
    ensures
        r == spec_f64_lt(a, b),
{
    if f64_is_nan(a) || f64_is_nan(b) {
        return false;
    }
    let sa: u64 = a / SIGN_UNIT;
    let sb: u64 = b / SIGN_UNIT;
    let ma: u64 = a % SIGN_UNIT;
    let mb: u64 = b % SIGN_UNIT;
    if sa == 1 && sb == 1 {
        mb < ma
    } else if sa == 1 && sb == 0 {
        !(ma == 0 && mb == 0)
    } else if sa == 0 && sb == 1 {
        false
    } else {
        ma < mb
    }
}

/// The smaller of two patterns under the `min` selection rule.
pub fn f64_min(a: u64, b: u64) -> (r: u64)
    ensures
        r == spec_f64_min(a, b),
{
    if f64_lt(a, b) || f64_is_nan(b) {
        a
    } else {
        b
    }
}

/// The larger of two patterns under the `max` selection rule.
pub fn f64_max(a: u64, b: u64) -> (r: u64)
    ensures
        r == spec_f64_max(a, b),
{
    if f64_lt(b, a) || f64_is_nan(b) {
        a
    } else {
        b
    }
}

} // verus!
