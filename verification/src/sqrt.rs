//! Verified square root of IEEE 754 binary64 bit patterns.
//!
//! The square root of a binary64 value is computed exactly in integer
//! arithmetic: scale the significand so that its integer square root carries
//! one bit more than the target precision, take the integer square root by
//! bisection, and round. A square root is never exactly halfway between two
//! representable values, so rounding to nearest needs only that one extra
//! bit. Special values follow the IEEE 754 rules: the root of a negative
//! value is NaN, the roots of zeros and of positive infinity are themselves,
//! and NaN is returned quiet.
use vstd::arithmetic::div_mod::lemma_fundamental_div_mod_converse;
use vstd::prelude::*;

use crate::float_bits::EXP_SPECIAL;
use crate::float_bits::ONE_BITS;
use crate::float_bits::FRAC_UNIT;
use crate::float_bits::SIGN_UNIT;
use crate::float_bits::exp_of;
use crate::float_bits::frac_of;
use crate::float_bits::is_nan_bits;
use crate::float_bits::mag_of;
use crate::float_bits::norm_m;
use crate::float_bits::norm_s;
use crate::float_bits::normalize;
use crate::float_bits::sign_of;

verus! {

/// Weight of the bit that distinguishes quiet NaNs from signaling ones
/// (2^51).
pub const QUIET_UNIT: u64 = 0x0008_0000_0000_0000;

/// Bit pattern of the quiet NaN returned for the root of a negative value.
pub const INDEFINITE_NAN: u64 = 0xFFF8_0000_0000_0000;

/// `s` is the integer square root of `n`.
pub open spec fn is_isqrt(n: int, s: int) -> bool {
    &&& 0 <= s
    &&& s * s <= n
    &&& n < (s + 1) * (s + 1)
}

/// The integer square root of `n`.
pub open spec fn spec_isqrt(n: int) -> int {
    choose|s: int| is_isqrt(n, s)
}

proof fn lemma_isqrt_unique(n: int, s1: int, s2: int)
    requires
        is_isqrt(n, s1),
        is_isqrt(n, s2),
    ensures
        s1 == s2,
{
    assert(s1 == s2) by (nonlinear_arith)
        requires
            is_isqrt(n, s1),
            is_isqrt(n, s2),
    ;
}

/// The integer square root, by bisection.
fn isqrt(n: u128) -> (r: u128)
    requires
        n < 0x1000_0000_0000_0000_0000_0000_0000,
    ensures
        is_isqrt(n as int, r as int),
        r == spec_isqrt(n as int),
{
    let mut lo: u128 = 0;
    let mut hi: u128 = 0x40_0000_0000_0000;
    while hi - lo > 1
        invariant
            lo < hi <= 0x40_0000_0000_0000,
            (lo as int) * (lo as int) <= n as int,
            (n as int) < (hi as int) * (hi as int),
        decreases hi - lo,
    {
        let mid = lo + (hi - lo) / 2;
        proof {
            assert((mid as int) * (mid as int) <= 0x1000_0000_0000_0000_0000_0000_0000int)
                by (nonlinear_arith)
                requires
                    0 <= mid as int <= 0x40_0000_0000_0000int,
            ;
        }
        if mid * mid <= n {
            lo = mid;
        } else {
            hi = mid;
        }
    }
    proof {
        assert(is_isqrt(n as int, lo as int));
        assert(exists|s: int| is_isqrt(n as int, s));
        lemma_isqrt_unique(n as int, spec_isqrt(n as int), lo as int);
    }
    lo
}

/// The rounded square root of the positive finite value encoded by `a`.
pub open spec fn spec_sqrt_pos(a: u64) -> u64 {
    let m0: nat = if exp_of(a) >= 1 {
        (FRAC_UNIT + frac_of(a)) as nat
    } else {
        frac_of(a) as nat
    };
    let e0: int = if exp_of(a) >= 1 {
        exp_of(a) - 1075
    } else {
        -1074
    };
    let e: int = e0 - norm_s(m0);
    let t: int = if e % 2 == 0 {
        54
    } else {
        55
    };
    let n: int = if e % 2 == 0 {
        norm_m(m0) * 0x40_0000_0000_0000int
    } else {
        norm_m(m0) * 0x80_0000_0000_0000int
    };
    let sq: int = spec_isqrt(n);
    let q: int = sq / 2 + sq % 2;
    let x: int = (e - t) / 2 + 1076;
    (x * FRAC_UNIT + (q - FRAC_UNIT)) as u64
}

/// The rounded square root of any binary64 bit pattern: NaN is returned
/// quiet, the root of a negative value is the indefinite NaN, zeros and
/// positive infinity return themselves.
pub open spec fn spec_sqrt_bits(a: u64) -> u64 {
    if is_nan_bits(a) {
        if frac_of(a) / QUIET_UNIT % 2 == 1 {
            a
        } else {
            (a + QUIET_UNIT) as u64
        }
    } else if mag_of(a) == 0 {
        a
    } else if sign_of(a) == 1 {
        INDEFINITE_NAN
    } else if exp_of(a) == EXP_SPECIAL {
        a
    } else {
        spec_sqrt_pos(a)
    }
}

proof fn lemma_isqrt_bounds(n: int, sq: int)
    requires
        is_isqrt(n, sq),
        n >= 0x400_0000_0000_0000_0000_0000_0000,
        n <= 0xFFF_FFFF_FFFF_FF80_0000_0000_0000,
    ensures
        0x20_0000_0000_0000 <= sq <= 0x3F_FFFF_FFFF_FFFE,
{
    assert(0x20_0000_0000_0000 <= sq) by (nonlinear_arith)
        requires
            is_isqrt(n, sq),
            n >= 0x400_0000_0000_0000_0000_0000_0000,
    ;
    assert(sq <= 0x3F_FFFF_FFFF_FFFE) by (nonlinear_arith)
        requires
            is_isqrt(n, sq),
            n <= 0xFFF_FFFF_FFFF_FF80_0000_0000_0000,
    ;
}

/// The square root of a binary64 bit pattern, correctly rounded to nearest.
/// The root of a non-negative non-NaN value is non-negative and not NaN,
/// finite when the value is finite, and at least 1.0 when the value is.
pub fn sqrt_bits(a: u64) -> (r: u64)
    ensures
        r == spec_sqrt_bits(a),
        a == 0 ==> r == 0,
        !is_nan_bits(a) && sign_of(a) == 0 ==> !is_nan_bits(r) && sign_of(r) == 0,
        !is_nan_bits(a) && sign_of(a) == 0 && exp_of(a) != EXP_SPECIAL ==> exp_of(r)
            != EXP_SPECIAL,
        !is_nan_bits(a) && sign_of(a) == 0 && mag_of(a) >= ONE_BITS ==> mag_of(r) >= ONE_BITS,
{
    let mag: u64 = a % SIGN_UNIT;
    let exp: u64 = mag / FRAC_UNIT;
    let frac: u64 = mag % FRAC_UNIT;
    if exp == EXP_SPECIAL && frac != 0 {
        // NaN: return it quiet.
        if frac / QUIET_UNIT % 2 == 1 {
            a
        } else {
            a + QUIET_UNIT
        }
    } else if mag == 0 {
        a
    } else if a / SIGN_UNIT == 1 {
        INDEFINITE_NAN
    } else if exp == EXP_SPECIAL {
        a
    } else {
        let m0: u64 = if exp >= 1 {
            FRAC_UNIT + frac
        } else {
            frac
        };
        let e0: i64 = if exp >= 1 {
            exp as i64 - 1075
        } else {
            -1074
        };
        let (m, s) = normalize(m0);
        let e: i64 = e0 - s as i64;
        proof {
            assert(exp <= 2046);
            assert(-1126 <= e <= 971);
        }
        // Parity of `e`, computed on a shifted nonnegative value.
        let u: u64 = (e + 1126) as u64;
        let even = u % 2 == 0;
        proof {
            assert((u as int) % 2 == (e as int + 1126) % 2);
            assert(even == ((e as int) % 2 == 0));
        }
        let n: u128 = if even {
            m as u128 * 0x40_0000_0000_0000
        } else {
            m as u128 * 0x80_0000_0000_0000
        };
        proof {
            assert(0x400_0000_0000_0000_0000_0000_0000
                <= n <= 0xFFF_FFFF_FFFF_FF80_0000_0000_0000) by (nonlinear_arith)
                requires
                    n as int == (m as int) * 0x40_0000_0000_0000int
                        || n as int == (m as int) * 0x80_0000_0000_0000int,
                    0x10_0000_0000_0000 <= (m as int) < 0x20_0000_0000_0000,
            ;
        }
        let sq = isqrt(n);
        proof {
            lemma_isqrt_bounds(n as int, sq as int);
        }
        let q: u64 = (sq / 2 + sq % 2) as u64;
        let t: u64 = if even {
            54
        } else {
            55
        };
        // x = (e - t) / 2 + 1076, computed on a shifted nonnegative value.
        let xw: u64 = ((e - t as i64 + 3000) as u64) / 2;
        let x: u64 = xw - 424;
        proof {
            assert((e as int - t as int + 3000) % 2 == 0);
            assert(xw as int == (e as int - t as int) / 2 + 1500);
            assert(486 <= x <= 1534);
            assert(0x10_0000_0000_0000 <= q < 0x20_0000_0000_0000);
        }
        let r_bits: u64 = x * FRAC_UNIT + (q - FRAC_UNIT);
        proof {
            lemma_fundamental_div_mod_converse(
                r_bits as int,
                FRAC_UNIT as int,
                x as int,
                q - FRAC_UNIT,
            );
            assert(mag_of(r_bits) == r_bits);
            assert(exp_of(r_bits) == x);
            if mag_of(a) >= ONE_BITS {
                assert(exp >= 1023);
                assert(norm_s(m0 as nat) == 0);
                assert(e >= -52);
                assert((e as int - t as int) / 2 >= -53);
                assert(x >= 1023);
                assert(mag_of(r_bits) >= ONE_BITS);
            }
        }
        r_bits
    }
}

} // verus!
