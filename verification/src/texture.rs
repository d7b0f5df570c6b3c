//! The distance field and its normalization to grayscale intensities.
use vstd::prelude::*;

use crate::config::DistanceOperation;
use crate::config::Error;
use crate::float_bits::NEG_INF_BITS;
use crate::float_bits::ONE_BITS;
use crate::float_bits::POS_INF_BITS;
use crate::float_bits::FRAC_UNIT;
use crate::float_bits::SIGN_UNIT;
use crate::float_bits::exp_of;
use crate::float_bits::frac_of;
use crate::float_bits::is_nan_bits;
use crate::float_bits::mag_of;
use crate::float_bits::sign_of;
use crate::float_bits::f64_is_nan;
use crate::float_ext::add_bits;
use crate::float_ext::div_bits;
use crate::float_ext::mul_bits;
use crate::float_ext::round_away_bits;
use crate::float_ext::sub_bits;
use crate::float_ext::f64_add;
use crate::float_ext::f64_div;
use crate::float_ext::f64_mul;
use crate::float_ext::f64_round_half_away;
use crate::float_ext::f64_sub;
use crate::geometry::Pixel;

verus! {

/// Bit pattern of the binary64 value 255.0.
pub const B255_BITS: u64 = 0x406F_E000_0000_0000;
/// Bit pattern of the binary64 value 256.0.
pub const B256_BITS: u64 = 0x4070_0000_0000_0000;

/// The running distance field: global minimum and maximum seen so far and the
/// raw per-pixel aggregate distances, row-major.
pub struct TextureAlgoData {
    /// Bit pattern of the smallest aggregate distance seen.
    pub min_dist: u64,
    /// Bit pattern of the largest aggregate distance seen.
    pub max_dist: u64,
    /// Bit patterns of the per-pixel aggregate distances.
    pub dist_buffer: Vec<u64>,
}

impl Default for TextureAlgoData {
    /// An empty field: the minimum starts at positive infinity and the
    /// maximum at negative infinity.
    fn default() -> (r: TextureAlgoData)
        ensures
            r.min_dist == POS_INF_BITS,
            r.max_dist == NEG_INF_BITS,
            r.dist_buffer@.len() == 0,
    {
        TextureAlgoData { min_dist: POS_INF_BITS, max_dist: NEG_INF_BITS, dist_buffer: Vec::new() }
    }
}

/// One application of the configured distance operation.
pub open spec fn spec_apply_op(op: DistanceOperation, acc: u64, d: u64) -> u64 {
    match op {
        DistanceOperation::Add => add_bits(acc, d),
        DistanceOperation::Subtract => sub_bits(acc, d),
        DistanceOperation::Multiply => mul_bits(acc, d),
        DistanceOperation::Divide => div_bits(acc, d),
    }
}

/// The left fold of the distance operation over a sequence of distances,
/// starting from `acc`.
pub open spec fn spec_fold_distances(op: DistanceOperation, acc: u64, ds: Seq<u64>) -> u64
    decreases ds.len(),
{
    if ds.len() == 0 {
        acc
    } else {
        spec_fold_distances(op, spec_apply_op(op, acc, ds[0]), ds.subrange(1, ds.len() as int))
    }
}

/// Folding one more distance applies the operation to the fold so far.
pub proof fn lemma_fold_snoc(op: DistanceOperation, acc: u64, ds: Seq<u64>, d: u64)
    ensures
        spec_fold_distances(op, acc, ds.push(d)) == spec_apply_op(
            op,
            spec_fold_distances(op, acc, ds),
            d,
        ),
    decreases ds.len(),
{
    if ds.len() == 0 {
        let e = Seq::<u64>::empty();
        assert(ds.push(d)[0] == d);
        assert(ds.push(d).subrange(1, 1) =~= e);
        assert(spec_fold_distances(op, acc, ds.push(d)) == spec_fold_distances(
            op,
            spec_apply_op(op, acc, d),
            e,
        ));
        assert(spec_fold_distances(op, spec_apply_op(op, acc, d), e) == spec_apply_op(op, acc, d));
    } else {
        let tail = ds.subrange(1, ds.len() as int);
        assert(ds.push(d)[0] == ds[0]);
        assert(ds.push(d).subrange(1, ds.len() as int + 1) =~= tail.push(d));
        lemma_fold_snoc(op, spec_apply_op(op, acc, ds[0]), tail, d);
        assert(spec_fold_distances(op, acc, ds.push(d)) == spec_fold_distances(
            op,
            spec_apply_op(op, acc, ds[0]),
            tail.push(d),
        ));
        assert(spec_fold_distances(op, acc, ds) == spec_fold_distances(
            op,
            spec_apply_op(op, acc, ds[0]),
            tail,
        ));
    }
}

pub(crate) fn apply_op(op: DistanceOperation, acc: u64, d: u64) -> (r: u64)
    ensures
        r == spec_apply_op(op, acc, d),
{
    match op {
        DistanceOperation::Add => f64_add(acc, d),
        DistanceOperation::Subtract => f64_sub(acc, d),
        DistanceOperation::Multiply => f64_mul(acc, d),
        DistanceOperation::Divide => f64_div(acc, d),
    }
}

/// The integer part of a pattern that encodes a value in `[1, 256)`: the
/// significand shifted down by the unbiased exponent's complement.
pub open spec fn spec_small_int_of(a: u64) -> int {
    let k = exp_of(a) - 1023;
    let sig = FRAC_UNIT + frac_of(a);
    if k == 0 {
        sig / 0x10_0000_0000_0000
    } else if k == 1 {
        sig / 0x8_0000_0000_0000
    } else if k == 2 {
        sig / 0x4_0000_0000_0000
    } else if k == 3 {
        sig / 0x2_0000_0000_0000
    } else if k == 4 {
        sig / 0x1_0000_0000_0000
    } else if k == 5 {
        sig / 0x8000_0000_0000
    } else if k == 6 {
        sig / 0x4000_0000_0000
    } else {
        sig / 0x2000_0000_0000
    }
}

/// The 8-bit grayscale value that a rounded intensity pattern narrows to:
/// the integer value, or nothing when it is not representable — outside
/// `[0, 255]` or not finite. A NaN intensity (a uniform field divides zero
/// by zero) aborts the pass rather than clamping silently.
pub open spec fn spec_gray_of_bits(a: u64) -> Option<u8> {
    if is_nan_bits(a) {
        None
    } else if sign_of(a) == 1 {
        if mag_of(a) < ONE_BITS {
            Some(0u8)
        } else {
            None
        }
    } else if a < ONE_BITS {
        Some(0u8)
    } else if a >= B256_BITS {
        None
    } else {
        Some(spec_small_int_of(a) as u8)
    }
}

/// Narrows a rounded intensity pattern to its 8-bit grayscale value.
pub fn gray_of_bits(a: u64) -> (r: Option<u8>)
    ensures
        r == spec_gray_of_bits(a),
{
    if f64_is_nan(a) {
        return None;
    }
    let mag: u64 = a % SIGN_UNIT;
    if a / SIGN_UNIT == 1 {
        return if mag < ONE_BITS {
            Some(0u8)
        } else {
            None
        };
    }
    if a < ONE_BITS {
        return Some(0u8);
    }
    if a >= B256_BITS {
        return None;
    }
    let exp: u64 = mag / FRAC_UNIT;
    let k: u64 = exp - 1023;
    let sig: u64 = FRAC_UNIT + mag % FRAC_UNIT;
    let v: u64 = if k == 0 {
        sig / 0x10_0000_0000_0000
    } else if k == 1 {
        sig / 0x8_0000_0000_0000
    } else if k == 2 {
        sig / 0x4_0000_0000_0000
    } else if k == 3 {
        sig / 0x2_0000_0000_0000
    } else if k == 4 {
        sig / 0x1_0000_0000_0000
    } else if k == 5 {
        sig / 0x8000_0000_0000
    } else if k == 6 {
        sig / 0x4000_0000_0000
    } else {
        sig / 0x2000_0000_0000
    };
    Some(v as u8)
}

/// The rounded intensity pattern of one raw value under global bounds
/// `mn`/`mx`: the value is rescaled to `[0, 1]`, optionally inverted, scaled
/// to 255 and rounded half away from zero.
pub open spec fn spec_intensity_bits(v: u64, mn: u64, mx: u64, invert: bool) -> u64 {
    let t = div_bits(sub_bits(v, mn), sub_bits(mx, mn));
    let i = if invert {
        sub_bits(ONE_BITS, t)
    } else {
        t
    };
    round_away_bits(mul_bits(i, B255_BITS))
}

/// The grayscale value of one raw distance value, if it is representable.
pub open spec fn spec_gray(v: u64, mn: u64, mx: u64, invert: bool) -> Option<u8> {
    spec_gray_of_bits(spec_intensity_bits(v, mn, mx, invert))
}

/// The grayscale value of entry `i` of the accumulated field.
pub open spec fn spec_gray_at(td: TextureAlgoData, i: int, invert: bool) -> Option<u8> {
    spec_gray(td.dist_buffer@[i], td.min_dist, td.max_dist, invert)
}

fn intensity_bits(v: u64, mn: u64, mx: u64, invert: bool) -> (r: u64)
    ensures
        r == spec_intensity_bits(v, mn, mx, invert),
{
    let t = f64_div(f64_sub(v, mn), f64_sub(mx, mn));
    let i = if invert {
        f64_sub(ONE_BITS, t)
    } else {
        t
    };
    f64_round_half_away(f64_mul(i, B255_BITS))
}

/// Writes each pixel's grayscale value from the accumulated field,
/// normalizing by the global minimum and maximum. Pixels are written in
/// order; the first value whose intensity cannot be represented as an 8-bit
/// grayscale stops the pass with an error, leaving that pixel and its
/// successors unchanged.
pub fn set_pixel_intensity(
    texture_pixels: &mut Vec<Pixel>,
    texture_data: &TextureAlgoData,
    invert_colors: bool,
) -> (r: Result<(), Error>)
    requires
        old(texture_pixels)@.len() == texture_data.dist_buffer@.len(),
    ensures
        final(texture_pixels)@.len() == old(texture_pixels)@.len(),
        r is Ok <==> (forall|i: int|
            0 <= i < texture_data.dist_buffer@.len() ==> #[trigger] spec_gray_at(
                *texture_data,
                i,
                invert_colors,
            ) is Some),
        r is Ok ==> (forall|i: int|
            0 <= i < texture_data.dist_buffer@.len() ==> {
                let px = #[trigger] final(texture_pixels)@[i];
                px.location == old(texture_pixels)@[i].location && px.grayscale == spec_gray_at(
                    *texture_data,
                    i,
                    invert_colors,
                )->Some_0
            }),
        r is Err ==> r->Err_0 == Error::IntensityConversionError,
        r is Err ==> (exists|j: int|
            0 <= j < texture_data.dist_buffer@.len() && #[trigger] spec_gray_at(
                *texture_data,
                j,
                invert_colors,
            ) is None && (forall|i: int|
                0 <= i < j ==> #[trigger] spec_gray_at(*texture_data, i, invert_colors) is Some)
                && (forall|i: int|
                0 <= i < j ==> {
                    let px = #[trigger] final(texture_pixels)@[i];
                    px.location == old(texture_pixels)@[i].location && px.grayscale == spec_gray_at(
                        *texture_data,
                        i,
                        invert_colors,
                    )->Some_0
                }) && (forall|i: int|
                j <= i < texture_data.dist_buffer@.len() ==> #[trigger] final(texture_pixels)@[i]
                    == old(texture_pixels)@[i])),
{
    let n = texture_pixels.len();
    let mut i: usize = 0;
    while i < n
        invariant
            n == texture_data.dist_buffer@.len(),
            n == old(texture_pixels)@.len(),
            texture_pixels@.len() == n,
            i <= n,
            forall|j: int|
                0 <= j < i ==> #[trigger] spec_gray_at(*texture_data, j, invert_colors) is Some,
            forall|j: int|
                0 <= j < i ==> {
                    let px = #[trigger] texture_pixels@[j];
                    px.location == old(texture_pixels)@[j].location && px.grayscale
                        == spec_gray_at(*texture_data, j, invert_colors)->Some_0
                },
            forall|j: int| i <= j < n ==> #[trigger] texture_pixels@[j] == old(texture_pixels)@[j],
        decreases n - i,
    {
        let bits = intensity_bits(
            texture_data.dist_buffer[i],
            texture_data.min_dist,
            texture_data.max_dist,
            invert_colors,
        );
        match gray_of_bits(bits) {
            Some(g) => {
                let loc = texture_pixels[i].location;
                texture_pixels[i] = Pixel { location: loc, grayscale: g };
            },
            None => {
                proof {
                    assert(spec_gray_at(*texture_data, i as int, invert_colors) is None);
                }
                return Err(Error::IntensityConversionError);
            },
        }
        i = i + 1;
    }
    Ok(())
}

} // verus!
