//! Trusted bridge to software IEEE 754 binary64 arithmetic.
//!
//! Each function here hands a pair of bit patterns to `rustc_apfloat`, which
//! computes the correctly rounded binary64 result, and returns the result's
//! bit pattern. The outcome of each operation is a pure function of the
//! argument bits, so each is named by an uninterpreted spec function; the
//! few extra clauses state facts that IEEE 754 gives directly (the sum and
//! the product of two positive zeros are positive zero, and integer
//! conversion maps zero to positive zero).
use vstd::prelude::*;

use rustc_apfloat::Float;

use crate::float_bits::EXP_SPECIAL;
use crate::float_bits::ONE_BITS;
use crate::float_bits::TWO_POW32_BITS;
use crate::float_bits::TWO_POW64_BITS;
use crate::float_bits::TWO_POW65_BITS;
use crate::float_bits::exp_of;
use crate::float_bits::is_nan_bits;
use crate::float_bits::mag_of;
use crate::float_bits::sign_of;

verus! {

/// The bit pattern that IEEE 754 addition (round to nearest even) gives.
pub uninterp spec fn add_bits(a: u64, b: u64) -> u64;

/// The bit pattern that IEEE 754 subtraction (round to nearest even) gives.
pub uninterp spec fn sub_bits(a: u64, b: u64) -> u64;

/// The bit pattern that IEEE 754 multiplication (round to nearest even) gives.
pub uninterp spec fn mul_bits(a: u64, b: u64) -> u64;

/// The bit pattern that IEEE 754 division (round to nearest even) gives.
pub uninterp spec fn div_bits(a: u64, b: u64) -> u64;

/// The bit pattern that rounding to an integral value, ties away from zero,
/// gives.
pub uninterp spec fn round_away_bits(a: u64) -> u64;

/// Relies on `rustc_apfloat::ieee::Double::add_r`: binary64 addition, round
/// to nearest even. IEEE 754 facts: `+0.0 + +0.0` is `+0.0`; the sum of two
/// non-negative non-NaN values is non-negative and never NaN (only opposite
/// infinities are invalid); the sum of two values at most 2^64 is at most
/// 2^65, since rounding is monotone and 2^65 is representable; and the sum
/// is at least either operand, so at least 1.0 if one operand is.
#[verifier::external_body]
pub(crate) fn f64_add(a: u64, b: u64) -> (r: u64)
    ensures
        r == add_bits(a, b),
        a == 0 && b == 0 ==> r == 0,
        !is_nan_bits(a) && !is_nan_bits(b) && sign_of(a) == 0 && sign_of(b) == 0 ==> {
            &&& !is_nan_bits(r)
            &&& sign_of(r) == 0
            &&& (mag_of(a) <= TWO_POW64_BITS && mag_of(b) <= TWO_POW64_BITS ==> mag_of(r)
                <= TWO_POW65_BITS)
            &&& (mag_of(a) >= ONE_BITS || mag_of(b) >= ONE_BITS ==> mag_of(r) >= ONE_BITS)
        },
{
    let x = rustc_apfloat::ieee::Double::from_bits(a as u128);
    let y = rustc_apfloat::ieee::Double::from_bits(b as u128);
    (x + y).value.to_bits() as u64
}

/// Relies on `rustc_apfloat::ieee::Double::sub_r`: binary64 subtraction,
/// round to nearest even.
#[verifier::external_body]
pub(crate) fn f64_sub(a: u64, b: u64) -> (r: u64)
    ensures
        r == sub_bits(a, b),
{
    let x = rustc_apfloat::ieee::Double::from_bits(a as u128);
    let y = rustc_apfloat::ieee::Double::from_bits(b as u128);
    (x - y).value.to_bits() as u64
}

/// Relies on `rustc_apfloat::ieee::Double::mul_r`: binary64 multiplication,
/// round to nearest even. IEEE 754 facts: `+0.0 * +0.0` is `+0.0`; the
/// product of two non-negative finite values is non-negative and never NaN
/// (only infinity times zero is invalid); the product of two values at most
/// 2^32 is at most 2^64, since rounding is monotone and 2^64 is
/// representable; and the product of two values at least 1.0 is at least
/// 1.0.
#[verifier::external_body]
pub(crate) fn f64_mul(a: u64, b: u64) -> (r: u64)
    ensures
        r == mul_bits(a, b),
        a == 0 && b == 0 ==> r == 0,
        !is_nan_bits(a) && !is_nan_bits(b) && sign_of(a) == 0 && sign_of(b) == 0 && exp_of(a)
            != EXP_SPECIAL && exp_of(b) != EXP_SPECIAL ==> {
            &&& !is_nan_bits(r)
            &&& sign_of(r) == 0
            &&& (mag_of(a) <= TWO_POW32_BITS && mag_of(b) <= TWO_POW32_BITS ==> mag_of(r)
                <= TWO_POW64_BITS)
            &&& (mag_of(a) >= ONE_BITS && mag_of(b) >= ONE_BITS ==> mag_of(r) >= ONE_BITS)
        },
{
    let x = rustc_apfloat::ieee::Double::from_bits(a as u128);
    let y = rustc_apfloat::ieee::Double::from_bits(b as u128);
    (x * y).value.to_bits() as u64
}

/// Relies on `rustc_apfloat::ieee::Double::div_r`: binary64 division, round
/// to nearest even.
#[verifier::external_body]
pub(crate) fn f64_div(a: u64, b: u64) -> (r: u64)
    ensures
        r == div_bits(a, b),
{
    let x = rustc_apfloat::ieee::Double::from_bits(a as u128);
    let y = rustc_apfloat::ieee::Double::from_bits(b as u128);
    (x / y).value.to_bits() as u64
}

/// Relies on `rustc_apfloat::ieee::Double::round_to_integral` with rounding
/// mode `NearestTiesToAway`: rounds to an integral binary64 value, halves
/// away from zero.
#[verifier::external_body]
pub(crate) fn f64_round_half_away(a: u64) -> (r: u64)
    ensures
        r == round_away_bits(a),
{
    let x = rustc_apfloat::ieee::Double::from_bits(a as u128);
    x.round_to_integral(rustc_apfloat::Round::NearestTiesToAway).value.to_bits() as u64
}

} // verus!
