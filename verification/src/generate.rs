//! The texture generation pipeline.
//!
//! For every grid pixel, in row-major order, the nearest texture points are
//! looked up in the spatial index, the wrapped distances to them are folded
//! with the configured operation into one raw value, and the global minimum
//! and maximum are tracked. A final pass normalizes every raw value to an
//! 8-bit grayscale intensity. The whole outcome is pinned by
//! `describes_texture`, a predicate of the point set and the configuration
//! alone, which is what makes generation from a fixed point set repeatable.
use vstd::prelude::*;

use crate::config::Config;
use crate::config::DistanceOperation;
use crate::config::Error;
use crate::float_bits::NEG_INF_BITS;
use crate::float_bits::POS_INF_BITS;
use crate::float_bits::spec_f64_max;
use crate::float_bits::spec_f64_min;
use crate::float_bits::f64_max;
use crate::float_bits::f64_min;
use crate::geometry::ImageDimensions;
use crate::geometry::Pixel;
use crate::geometry::spec_wrapped_distance;
use crate::texture::TextureAlgoData;
use crate::texture::set_pixel_intensity;
use crate::texture::spec_fold_distances;
use crate::texture::spec_gray;
use crate::texture::spec_gray_at;
use crate::texture::apply_op;
use crate::tree::COORD_LIMIT;
use crate::tree::SearchTree;
use crate::tree::coord_to_i32;
use crate::tree::generate_search_tree;
use crate::tree::in_coord_range;
use crate::tree::kd_sorted;
use crate::tree::nearests_of;

verus! {

/// The wrapped distances from a query coordinate to each neighbor, in the
/// neighbors' order.
pub open spec fn spec_neighbor_dists(ns: Seq<[i32; 2]>, qx: i32, qy: i32, w: u32, h: u32) -> Seq<
    u64,
> {
    Seq::new(
        ns.len(),
        |i: int|
            spec_wrapped_distance(qx as int, qy as int, ns[i][0] as int, ns[i][1] as int, w, h),
    )
}

/// The raw aggregate distance of one pixel: the wrapped distances to its
/// nearest texture points, folded left to right with the operation.
pub open spec fn spec_pixel_raw(
    items: Seq<[i32; 2]>,
    qx: i32,
    qy: i32,
    w: u32,
    h: u32,
    num: usize,
    op: DistanceOperation,
) -> u64 {
    let ds = spec_neighbor_dists(nearests_of(items, qx, qy, num), qx, qy, w, h);
    spec_fold_distances(op, ds[0], ds.subrange(1, ds.len() as int))
}

/// The raw aggregate distance of the pixel at row-major index `idx`.
pub open spec fn spec_raw_at(
    items: Seq<[i32; 2]>,
    idx: int,
    w: u32,
    h: u32,
    num: usize,
    op: DistanceOperation,
) -> u64 {
    spec_pixel_raw(
        items,
        (idx % (w as int)) as i32,
        (idx / (w as int)) as i32,
        w,
        h,
        num,
        op,
    )
}

/// The running minimum over the first `n` raw values, from positive
/// infinity.
pub open spec fn spec_min_to(
    items: Seq<[i32; 2]>,
    w: u32,
    h: u32,
    num: usize,
    op: DistanceOperation,
    n: int,
) -> u64
    decreases n,
{
    if n <= 0 {
        POS_INF_BITS
    } else {
        spec_f64_min(spec_min_to(items, w, h, num, op, n - 1), spec_raw_at(items, n - 1, w, h, num, op))
    }
}

/// The running maximum over the first `n` raw values, from negative
/// infinity.
pub open spec fn spec_max_to(
    items: Seq<[i32; 2]>,
    w: u32,
    h: u32,
    num: usize,
    op: DistanceOperation,
    n: int,
) -> u64
    decreases n,
{
    if n <= 0 {
        NEG_INF_BITS
    } else {
        spec_f64_max(spec_max_to(items, w, h, num, op, n - 1), spec_raw_at(items, n - 1, w, h, num, op))
    }
}

/// What a generation run returns for a given texture point set and
/// configuration. An empty grid yields an empty texture; with no neighbors
/// available the run fails at the first pixel; otherwise every pixel's raw
/// value is normalized by the global bounds, and one unrepresentable
/// intensity fails the run.
pub open spec fn describes_texture(
    pts: Seq<[i32; 2]>,
    w: u32,
    h: u32,
    num: usize,
    op: DistanceOperation,
    invert: bool,
    r: Result<Seq<Pixel>, Error>,
) -> bool {
    let total = (w as int) * (h as int);
    let items = kd_sorted(pts);
    let mn = spec_min_to(items, w, h, num, op, total);
    let mx = spec_max_to(items, w, h, num, op, total);
    if w == 0 || h == 0 {
        r is Ok && r->Ok_0.len() == 0
    } else if num == 0 || pts.len() == 0 {
        r == Err::<Seq<Pixel>, Error>(Error::NoNeighborsFound { x: 0, y: 0 })
    } else if forall|idx: int|
        0 <= idx < total ==> spec_gray(
            #[trigger] spec_raw_at(items, idx, w, h, num, op),
            mn,
            mx,
            invert,
        ) is Some {
        &&& r is Ok
        &&& r->Ok_0.len() == total
        &&& forall|idx: int|
            0 <= idx < total ==> {
                let px = #[trigger] r->Ok_0[idx];
                &&& px.location[0] as int == idx % (w as int)
                &&& px.location[1] as int == idx / (w as int)
                &&& px.grayscale == spec_gray(
                    spec_raw_at(items, idx, w, h, num, op),
                    mn,
                    mx,
                    invert,
                )->Some_0
            }
    } else {
        r == Err::<Seq<Pixel>, Error>(Error::IntensityConversionError)
    }
}

/// The view of a returned texture: the pixel sequence or the error.
pub open spec fn result_view(r: Result<Vec<Pixel>, Error>) -> Result<Seq<Pixel>, Error> {
    match r {
        Ok(v) => Ok(v@),
        Err(e) => Err(e),
    }
}

/// Folds the wrapped distances from `pixel` to its nearest texture points,
/// or nothing when the query returns no neighbor at all — which happens
/// exactly when the index is empty or no neighbors are requested.
fn aggregate_distance(
    tree: &SearchTree,
    pixel: &Pixel,
    dimensions: &ImageDimensions,
    num: usize,
    op: DistanceOperation,
) -> (r: Option<u64>)
    requires
        tree.wf(),
        in_coord_range(pixel.location),
    ensures
        r is None <==> (num == 0 || tree.spec_points().len() == 0),
        r is Some ==> r->Some_0 == spec_pixel_raw(
            kd_sorted(tree.spec_points()),
            pixel.location[0],
            pixel.location[1],
            dimensions.width,
            dimensions.height,
            num,
            op,
        ),
{
    let neighbors = tree.nearests(pixel.location, num);
    if neighbors.len() == 0 {
        return None;
    }
    let ghost ns = nearests_of(
        kd_sorted(tree.spec_points()),
        pixel.location[0],
        pixel.location[1],
        num,
    );
    let ghost ds = spec_neighbor_dists(
        ns,
        pixel.location[0],
        pixel.location[1],
        dimensions.width,
        dimensions.height,
    );
    let mut acc = pixel.wrapped_distance(&Pixel::new(neighbors[0], 0), dimensions);
    let mut idx: usize = 1;
    proof {
        assert(ds.subrange(1, 1) =~= Seq::<u64>::empty());
    }
    while idx < neighbors.len()
        invariant
            1 <= idx <= neighbors.len(),
            neighbors@ == ns,
            ds == spec_neighbor_dists(
                ns,
                pixel.location[0],
                pixel.location[1],
                dimensions.width,
                dimensions.height,
            ),
            acc == spec_fold_distances(op, ds[0], ds.subrange(1, idx as int)),
        decreases neighbors.len() - idx,
    {
        let d = pixel.wrapped_distance(&Pixel::new(neighbors[idx], 0), dimensions);
        proof {
            assert(d == ds[idx as int]);
            assert(ds.subrange(1, idx as int + 1) =~= ds.subrange(1, idx as int).push(
                ds[idx as int],
            ));
            crate::texture::lemma_fold_snoc(op, ds[0], ds.subrange(1, idx as int), d);
        }
        acc = apply_op(op, acc, d);
        idx = idx + 1;
    }
    Some(acc)
}

/// Runs the pixel pass and the normalization over a built index.
fn generate_with_tree(search_tree: &SearchTree, config: &Config) -> (r: Result<Vec<Pixel>, Error>)
    requires
        search_tree.wf(),
        config.dimensions.width <= COORD_LIMIT,
        config.dimensions.height <= COORD_LIMIT,
    ensures
        describes_texture(
            search_tree.spec_points(),
            config.dimensions.width,
            config.dimensions.height,
            config.num_neighbors as usize,
            config.dist_op,
            config.invert_colors,
            result_view(r),
        ),
{
    let w = config.dimensions.width;
    let h = config.dimensions.height;
    let num = config.num_neighbors as usize;
    let op = config.dist_op;
    let ghost items = kd_sorted(search_tree.spec_points());
    proof {
        assert((w as int) * (h as int) <= 0x4000_0000) by (nonlinear_arith)
            requires
                w <= 0x8000,
                h <= 0x8000,
        ;
        assert(w == 0 || h == 0 ==> (w as int) * (h as int) == 0) by (nonlinear_arith);
    }
    let total: usize = (w as usize) * (h as usize);
    let mut texture_data = TextureAlgoData::default();
    let mut texture_pixels: Vec<Pixel> = Vec::new();
    let mut idx: usize = 0;
    while idx < total
        invariant
            search_tree.wf(),
            w == config.dimensions.width,
            h == config.dimensions.height,
            num == config.num_neighbors as usize,
            op == config.dist_op,
            items == kd_sorted(search_tree.spec_points()),
            w <= COORD_LIMIT,
            h <= COORD_LIMIT,
            total == (w as int) * (h as int),
            idx <= total,
            w >= 1 && h >= 1 || total == 0,
            texture_pixels@.len() == idx,
            texture_data.dist_buffer@.len() == idx,
            texture_data.min_dist == spec_min_to(items, w, h, num, op, idx as int),
            texture_data.max_dist == spec_max_to(items, w, h, num, op, idx as int),
            forall|j: int|
                0 <= j < idx ==> texture_data.dist_buffer@[j] == #[trigger] spec_raw_at(
                    items,
                    j,
                    w,
                    h,
                    num,
                    op,
                ),
            forall|j: int|
                0 <= j < idx ==> {
                    let px = #[trigger] texture_pixels@[j];
                    &&& px.location[0] as int == j % (w as int)
                    &&& px.location[1] as int == j / (w as int)
                },
            idx >= 1 ==> !(num == 0 || search_tree.spec_points().len() == 0),
        decreases total - idx,
    {
        proof {
            assert(w >= 1 && h >= 1);
            assert(idx as int / (w as int) < h as int) by (nonlinear_arith)
                requires
                    0 <= (idx as int) < (w as int) * (h as int),
                    w >= 1,
            ;
        }
        let x32: u32 = (idx % (w as usize)) as u32;
        let y32: u32 = (idx / (w as usize)) as u32;
        proof {
            assert(0 <= (idx as int) % (w as int) && (idx as int) % (w as int) < (w as int))
                by (nonlinear_arith)
                requires
                    (w as int) >= 1,
                    idx >= 0,
            ;
            assert(idx == 0 ==> (idx as int) % (w as int) == 0 && (idx as int) / (w as int) == 0)
                by (nonlinear_arith)
                requires
                    (w as int) >= 1,
            ;
            assert(0 <= (idx as int) / (w as int)) by (nonlinear_arith)
                requires
                    (w as int) >= 1,
                    idx >= 0,
            ;
        }
        let xi = match coord_to_i32(x32) {
            Ok(v) => v,
            Err(e) => {
                return Err(e);
            },
        };
        let yi = match coord_to_i32(y32) {
            Ok(v) => v,
            Err(e) => {
                return Err(e);
            },
        };
        let pixel = Pixel::new([xi, yi], 0);
        match aggregate_distance(search_tree, &pixel, &config.dimensions, num, op) {
            Some(distance) => {
                proof {
                    assert(distance == spec_raw_at(items, idx as int, w, h, num, op));
                    assert(spec_min_to(items, w, h, num, op, idx as int + 1) == spec_f64_min(
                        spec_min_to(items, w, h, num, op, idx as int),
                        spec_raw_at(items, idx as int, w, h, num, op),
                    ));
                    assert(spec_max_to(items, w, h, num, op, idx as int + 1) == spec_f64_max(
                        spec_max_to(items, w, h, num, op, idx as int),
                        spec_raw_at(items, idx as int, w, h, num, op),
                    ));
                }
                texture_data.min_dist = f64_min(texture_data.min_dist, distance);
                texture_data.max_dist = f64_max(texture_data.max_dist, distance);
                texture_data.dist_buffer.push(distance);
                texture_pixels.push(pixel);
            },
            None => {
                proof {
                    assert(idx == 0);
                    assert(pixel.location[0] == 0i32 && pixel.location[1] == 0i32);
                }
                return Err(Error::NoNeighborsFound { x: pixel.location[0], y: pixel.location[1] });
            },
        }
        idx = idx + 1;
    }
    proof {
        assert(w >= 1 && h >= 1 ==> (w as int) * (h as int) >= 1) by (nonlinear_arith);
        if w >= 1 && h >= 1 {
            assert(total >= 1);
            assert(!(num == 0 || search_tree.spec_points().len() == 0));
        }
    }
    match set_pixel_intensity(&mut texture_pixels, &texture_data, config.invert_colors) {
        Ok(()) => {
            proof {
                let mn = spec_min_to(items, w, h, num, op, total as int);
                let mx = spec_max_to(items, w, h, num, op, total as int);
                assert forall|i: int| 0 <= i < total implies spec_gray(
                    #[trigger] spec_raw_at(items, i, w, h, num, op),
                    mn,
                    mx,
                    config.invert_colors,
                ) is Some by {
                    assert(spec_gray_at(texture_data, i, config.invert_colors) is Some);
                }
                assert forall|i: int| 0 <= i < total implies {
                    let px = #[trigger] texture_pixels@[i];
                    &&& px.location[0] as int == i % (w as int)
                    &&& px.location[1] as int == i / (w as int)
                    &&& px.grayscale == spec_gray(
                        spec_raw_at(items, i, w, h, num, op),
                        mn,
                        mx,
                        config.invert_colors,
                    )->Some_0
                } by {
                    assert(spec_gray_at(texture_data, i, config.invert_colors) is Some);
                }
            }
            Ok(texture_pixels)
        },
        Err(e) => {
            proof {
                let mn = spec_min_to(items, w, h, num, op, total as int);
                let mx = spec_max_to(items, w, h, num, op, total as int);
                let j = choose|j: int|
                    0 <= j < texture_data.dist_buffer@.len() && #[trigger] spec_gray_at(
                        texture_data,
                        j,
                        config.invert_colors,
                    ) is None;
                assert(spec_gray(
                    spec_raw_at(items, j, w, h, num, op),
                    mn,
                    mx,
                    config.invert_colors,
                ) is None);
            }
            Err(e)
        },
    }
}

/// Generates a cellular texture over a fixed set of texture points, given as
/// pixels whose locations are the points. The outcome is a function of the
/// point sequence and the configuration alone: repeated calls with the same
/// inputs return identical textures.
pub fn generate_texture_from_points(search_pixels: &Vec<Pixel>, config: &Config) -> (r: Result<
    Vec<Pixel>,
    Error,
>)
    requires
        config.dimensions.width <= COORD_LIMIT,
        config.dimensions.height <= COORD_LIMIT,
        forall|i: int|
            0 <= i < search_pixels@.len() ==> in_coord_range(#[trigger] search_pixels@[i].location),
    ensures
        describes_texture(
            search_pixels@.map(|i: int, p: Pixel| p.location),
            config.dimensions.width,
            config.dimensions.height,
            config.num_neighbors as usize,
            config.dist_op,
            config.invert_colors,
            result_view(r),
        ),
{
    let ghost pts = search_pixels@.map(|i: int, p: Pixel| p.location);
    let mut coords: Vec<[i32; 2]> = Vec::new();
    let mut i: usize = 0;
    while i < search_pixels.len()
        invariant
            i <= search_pixels@.len(),
            coords@.len() == i,
            forall|j: int| 0 <= j < i ==> coords@[j] == #[trigger] search_pixels@[j].location,
            forall|j: int|
                0 <= j < search_pixels@.len() ==> in_coord_range(
                    #[trigger] search_pixels@[j].location,
                ),
        decreases search_pixels@.len() - i,
    {
        coords.push(search_pixels[i].location);
        i = i + 1;
    }
    proof {
        assert(coords@ =~= pts);
    }
    let search_tree = SearchTree::build(coords);
    generate_with_tree(&search_tree, config)
}

/// Generates a cellular texture based on the provided configuration.
///
/// Scatters `num_texture_points` random texture points, then runs the pixel
/// pass and the normalization. Returns the grid's pixels with their
/// grayscale values, or the error that stopped the run: no neighbors
/// available for a pixel, or an intensity outside the 8-bit range. With no
/// texture points and at least one neighbor requested, a nonempty grid
/// always fails at its first pixel.
pub fn generate_texture(config: &Config) -> (r: Result<Vec<Pixel>, Error>)
    requires
        config.dimensions.width <= COORD_LIMIT,
        config.dimensions.height <= COORD_LIMIT,
        config.num_texture_points > 0 ==> config.dimensions.width >= 1
            && config.dimensions.height >= 1,
    ensures
        exists|pts: Seq<[i32; 2]>|
            pts.len() == config.num_texture_points && #[trigger] describes_texture(
                pts,
                config.dimensions.width,
                config.dimensions.height,
                config.num_neighbors as usize,
                config.dist_op,
                config.invert_colors,
                result_view(r),
            ),
        config.num_texture_points == 0 && config.num_neighbors >= 1 && config.dimensions.width >= 1
            && config.dimensions.height >= 1 ==> r == Err::<Vec<Pixel>, Error>(
            Error::NoNeighborsFound { x: 0, y: 0 },
        ),
        r is Ok ==> r->Ok_0@.len() == (config.dimensions.width as int) * (
        config.dimensions.height as int),
        r is Err ==> (r->Err_0 is NoNeighborsFound || r->Err_0 is IntensityConversionError),
{
    let search_tree = match generate_search_tree(config.num_texture_points, &config.dimensions) {
        Ok(t) => t,
        Err(e) => {
            return Err(e);
        },
    };
    let r = generate_with_tree(&search_tree, config);
    proof {
        assert(describes_texture(
            search_tree.spec_points(),
            config.dimensions.width,
            config.dimensions.height,
            config.num_neighbors as usize,
            config.dist_op,
            config.invert_colors,
            result_view(r),
        ));
    }
    r
}

/// Texture generation from a fixed point set is repeatable: two outcomes of
/// the same point sequence and configuration are the same texture — equal
/// success, equal pixels, equal error.
pub proof fn lemma_texture_deterministic(
    pts: Seq<[i32; 2]>,
    w: u32,
    h: u32,
    num: usize,
    op: DistanceOperation,
    invert: bool,
    r1: Result<Seq<Pixel>, Error>,
    r2: Result<Seq<Pixel>, Error>,
)
    requires
        describes_texture(pts, w, h, num, op, invert, r1),
        describes_texture(pts, w, h, num, op, invert, r2),
    ensures
        r1 is Ok <==> r2 is Ok,
        r1 is Err ==> r1 == r2,
        r1 is Ok ==> r1->Ok_0.len() == r2->Ok_0.len(),
        r1 is Ok ==> forall|i: int|
            0 <= i < r1->Ok_0.len() ==> #[trigger] r1->Ok_0[i].grayscale == r2->Ok_0[i].grayscale
                && r1->Ok_0[i].location[0] == r2->Ok_0[i].location[0] && r1->Ok_0[i].location[1]
                == r2->Ok_0[i].location[1],
{
}

} // verus!
