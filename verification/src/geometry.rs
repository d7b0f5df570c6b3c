//! Pixels, image dimensions, and the toroidal distance metric.
//!
//! The wrapped distance between two grid coordinates reflects each axis
//! difference that exceeds half the corresponding image dimension, then takes
//! the Euclidean norm. Axis differences of 32-bit coordinates are integers
//! that binary64 arithmetic represents exactly, so the reflection is computed
//! in integer arithmetic; only the squaring, the sum and the root are
//! floating-point operations, done on bit patterns.
use vstd::prelude::*;

use crate::float_bits::EXP_SPECIAL;
use crate::float_bits::ONE_BITS;
use crate::float_bits::TWO_POW65_BITS;
use crate::float_bits::FRAC_UNIT;
use crate::float_bits::exp_of;
use crate::float_bits::from_u32_bits;
use crate::float_bits::is_nan_bits;
use crate::float_bits::mag_of;
use crate::float_bits::sign_of;
use crate::float_bits::spec_from_u32;
use crate::float_ext::add_bits;
use crate::float_ext::f64_add;
use crate::float_ext::f64_mul;
use crate::float_ext::mul_bits;
use crate::sqrt::spec_sqrt_bits;
use crate::sqrt::sqrt_bits;

verus! {

/// Dimensions of an image.
pub struct ImageDimensions {
    /// Width of the image in pixels.
    pub width: u32,
    /// Height of the image in pixels.
    pub height: u32,
}

impl ImageDimensions {
    /// Creates a new `ImageDimensions` instance with the given sides.
    pub fn new(width: u32, height: u32) -> (r: ImageDimensions)
        ensures
            r.width == width,
            r.height == height,
    {
        ImageDimensions { width, height }
    }
}

/// A grayscale image pixel.
#[derive(Debug)]
pub struct Pixel {
    /// Location of the pixel in the image as [x, y] coordinates.
    pub location: [i32; 2],
    /// Grayscale value of the pixel.
    pub grayscale: u8,
}

/// The absolute difference of two integers.
pub open spec fn abs_diff(a: int, b: int) -> int {
    if a >= b {
        a - b
    } else {
        b - a
    }
}

/// The toroidal reflection of one axis difference: a difference larger than
/// half the dimension is replaced by its complement to the dimension.
pub open spec fn wrap_axis(a: int, b: int, d: int) -> int {
    let diff = abs_diff(a, b);
    if 2 * diff > d {
        abs_diff(d, diff)
    } else {
        diff
    }
}

/// Both pixels lie on the `w` by `h` grid and their locations differ; on the
/// torus, two such pixels are at least one grid step apart.
pub open spec fn distinct_in_bounds(p: Pixel, q: Pixel, w: u32, h: u32) -> bool {
    &&& 0 <= p.location[0] && (p.location[0] as int) < (w as int)
    &&& 0 <= p.location[1] && (p.location[1] as int) < (h as int)
    &&& 0 <= q.location[0] && (q.location[0] as int) < (w as int)
    &&& 0 <= q.location[1] && (q.location[1] as int) < (h as int)
    &&& (p.location[0] != q.location[0] || p.location[1] != q.location[1])
}

/// The bit pattern of the wrapped Euclidean distance between coordinates
/// `(ax, ay)` and `(bx, by)` on the torus given by `(w, h)`.
pub open spec fn spec_wrapped_distance(ax: int, ay: int, bx: int, by: int, w: u32, h: u32) -> u64 {
    let fx = spec_from_u32(wrap_axis(ax, bx, w as int) as u32);
    let fy = spec_from_u32(wrap_axis(ay, by, h as int) as u32);
    spec_sqrt_bits(add_bits(mul_bits(fx, fx), mul_bits(fy, fy)))
}

/// One axis of the wrapped difference, in integer arithmetic.
fn wrap_axis_exec(a: i32, b: i32, d: u32) -> (r: u32)
    ensures
        r == wrap_axis(a as int, b as int, d as int),
{
    let diff: u64 = if a >= b {
        (a as i64 - b as i64) as u64
    } else {
        (b as i64 - a as i64) as u64
    };
    let dd = d as u64;
    if 2 * diff > dd {
        if dd >= diff {
            (dd - diff) as u32
        } else {
            (diff - dd) as u32
        }
    } else {
        diff as u32
    }
}

impl Pixel {
    /// Creates a new `Pixel` instance with the specified location and
    /// grayscale value.
    pub fn new(location: [i32; 2], grayscale: u8) -> (r: Pixel)
        ensures
            r.location == location,
            r.grayscale == grayscale,
    {
        Pixel { location, grayscale }
    }

    /// Computes the Euclidean distance between two pixels, taking into
    /// account wrapping about image boundaries. The distance of a pixel to
    /// itself is zero, and the metric is symmetric in its two pixels. The
    /// result is a non-negative finite value, never NaN, and nonzero — at
    /// least 1.0 — for two distinct in-bounds pixels.
    pub fn wrapped_distance(&self, other: &Pixel, dimensions: &ImageDimensions) -> (r: u64)
        ensures
            r == spec_wrapped_distance(
                self.location[0] as int,
                self.location[1] as int,
                other.location[0] as int,
                other.location[1] as int,
                dimensions.width,
                dimensions.height,
            ),
            self.location == other.location ==> r == 0,
            !is_nan_bits(r),
            sign_of(r) == 0,
            exp_of(r) != EXP_SPECIAL,
            distinct_in_bounds(*self, *other, dimensions.width, dimensions.height) ==> r != 0,
    {
        let dx: u32 = wrap_axis_exec(self.location[0], other.location[0], dimensions.width);
        let dy: u32 = wrap_axis_exec(self.location[1], other.location[1], dimensions.height);
        let fx = from_u32_bits(dx);
        let fy = from_u32_bits(dy);
        let sx = f64_mul(fx, fx);
        let sy = f64_mul(fy, fy);
        let sum = f64_add(sx, sy);
        proof {
            assert(exp_of(sum) != EXP_SPECIAL) by {
                assert(mag_of(sum) <= TWO_POW65_BITS);
                assert(mag_of(sum) / FRAC_UNIT <= 1088);
            }
        }
        let r = sqrt_bits(sum);
        proof {
            if sign_of(r) == 0 && mag_of(r) >= ONE_BITS {
                assert(r == mag_of(r));
            }
        }
        r
    }
}

/// The wrapped distance is symmetric: exchanging the two coordinates leaves
/// it unchanged.
pub proof fn lemma_wrapped_distance_symmetric(ax: int, ay: int, bx: int, by: int, w: u32, h: u32)
    ensures
        spec_wrapped_distance(ax, ay, bx, by, w, h) == spec_wrapped_distance(
            bx,
            by,
            ax,
            ay,
            w,
            h,
        ),
{
    assert(wrap_axis(ax, bx, w as int) == wrap_axis(bx, ax, w as int));
    assert(wrap_axis(ay, by, h as int) == wrap_axis(by, ay, h as int));
}

} // verus!
