//! The spatial index over texture points.
//!
//! The index is a kd-tree from an outside crate, held opaquely. Its verified
//! face is `SearchTree`: a build-once structure whose contents, size and
//! query results are pinned by contracts. The tree selects and orders
//! neighbors by planar (non-wrapping) squared distance — its native metric,
//! not the toroidal one used later for the distance values; that mismatch is
//! deliberate, inherited behavior.
//!
//! The tree computes planar squared distances in 32-bit arithmetic, which
//! overflows once a coordinate difference exceeds 32767; every coordinate
//! handed to it is therefore required to lie in `[0, 32767]`.
use vstd::prelude::*;
use vstd::seq_lib::to_multiset_contains;
use vstd::seq_lib::to_multiset_len;

use crate::config::Error;
use crate::geometry::ImageDimensions;
use crate::geometry::Pixel;
use crate::rng_ext::random_below;

verus! {

/// Exclusive upper bound on the image dimensions the index accepts.
pub const COORD_LIMIT: u32 = 32768;

/// The coordinate fits the index's 32-bit distance arithmetic.
pub open spec fn in_coord_range(p: [i32; 2]) -> bool {
    &&& 0 <= p[0] < COORD_LIMIT
    &&& 0 <= p[1] < COORD_LIMIT
}

/// The planar (non-wrapping) squared distance between a point and a query
/// coordinate — the index's native metric.
pub open spec fn planar_sq_dist(p: [i32; 2], qx: i32, qy: i32) -> int {
    (p[0] - qx) * (p[0] - qx) + (p[1] - qy) * (p[1] - qy)
}

/// The kd-tree's internal array: the input points permuted into kd order.
pub uninterp spec fn kd_sorted(pts: Seq<[i32; 2]>) -> Seq<[i32; 2]>;

/// What the held kd-tree's array contains.
pub uninterp spec fn tree_seq(t: RawKdTree) -> Seq<[i32; 2]>;

/// What a nearest-neighbor query returns on a kd-ordered array.
pub uninterp spec fn nearests_of(items: Seq<[i32; 2]>, qx: i32, qy: i32, num: usize) -> Seq<
    [i32; 2],
>;

/// The kd-tree of an outside crate, held opaquely.
#[verifier::external_body]
pub struct RawKdTree {
    inner: kd_tree::KdTreeN<[i32; 2], typenum::U2>,
}

/// Relies on `kd_tree::KdTreeN::build`: permutes the points into kd order
/// (comparing coordinates only, no arithmetic); the resulting array holds
/// exactly the input points.
#[verifier::external_body]
fn kd_build(points: Vec<[i32; 2]>) -> (r: RawKdTree)
    ensures
        tree_seq(r) == kd_sorted(points@),
        tree_seq(r).to_multiset() == points@.to_multiset(),
{
    RawKdTree { inner: kd_tree::KdTreeN::build(points) }
}

/// Relies on `kd_tree::KdSliceN::nearests`: returns at most `num` of the
/// tree's points, ordered by ascending planar squared distance to the query,
/// and returns none exactly when the tree is empty or `num` is zero. The
/// query walks the kd order deterministically, so the result is a function
/// of the array, the query and `num`. Coordinates are bounded so that the
/// 32-bit distance arithmetic inside the call cannot overflow.
#[verifier::external_body]
fn kd_nearests(t: &RawKdTree, query: [i32; 2], num: usize) -> (r: Vec<[i32; 2]>)
    requires
        forall|i: int| 0 <= i < tree_seq(*t).len() ==> in_coord_range(tree_seq(*t)[i]),
        in_coord_range(query),
    ensures
        r@ == nearests_of(tree_seq(*t), query[0], query[1], num),
        r@.len() <= num,
        r@.len() <= tree_seq(*t).len(),
        r@.len() == 0 <==> (num == 0 || tree_seq(*t).len() == 0),
        forall|i: int| 0 <= i < r@.len() ==> tree_seq(*t).to_multiset().contains(r@[i]),
        forall|i: int, j: int|
            0 <= i < j < r@.len() ==> planar_sq_dist(r@[i], query[0], query[1])
                <= planar_sq_dist(r@[j], query[0], query[1]),
{
    let found = t.inner.nearests(&query, num);
    found.iter().map(|n| *n.item).collect()
}

/// A build-once nearest-neighbor index over texture point coordinates.
pub struct SearchTree {
    raw: RawKdTree,
    size: usize,
    points: Ghost<Seq<[i32; 2]>>,
}

impl SearchTree {
    /// The points the tree was built from, in build order.
    pub closed spec fn spec_points(&self) -> Seq<[i32; 2]> {
        self.points@
    }

    /// The tree holds exactly the recorded points, kd-ordered, all within
    /// the index's coordinate range.
    pub closed spec fn wf(&self) -> bool {
        &&& tree_seq(self.raw) == kd_sorted(self.points@)
        &&& tree_seq(self.raw).to_multiset() == self.points@.to_multiset()
        &&& self.size == self.points@.len()
        &&& forall|i: int| 0 <= i < self.points@.len() ==> in_coord_range(self.points@[i])
    }

    /// Builds the index over the given coordinates.
    pub fn build(points: Vec<[i32; 2]>) -> (r: SearchTree)
        requires
            forall|i: int| 0 <= i < points@.len() ==> in_coord_range(points@[i]),
        ensures
            r.wf(),
            r.spec_points() == points@,
    {
        let ghost pts = points@;
        let size = points.len();
        let raw = kd_build(points);
        proof {
            broadcast use to_multiset_len;

        }
        SearchTree { raw, size, points: Ghost(pts) }
    }

    /// The number of points the tree holds.
    pub fn len(&self) -> (r: usize)
        ensures
            self.wf() ==> r == self.spec_points().len(),
    {
        self.size
    }

    /// Whether the tree holds no point at all.
    pub fn is_empty(&self) -> (r: bool)
        ensures
            self.wf() ==> r == (self.spec_points().len() == 0),
    {
        self.size == 0
    }

    /// Queries the tree for up to `num` points nearest to `query` under the
    /// index's native planar metric, ascending.
    pub fn nearests(&self, query: [i32; 2], num: usize) -> (r: Vec<[i32; 2]>)
        requires
            self.wf(),
            in_coord_range(query),
        ensures
            r@ == nearests_of(kd_sorted(self.spec_points()), query[0], query[1], num),
            r@.len() <= num,
            r@.len() <= self.spec_points().len(),
            r@.len() == 0 <==> (num == 0 || self.spec_points().len() == 0),
            forall|i: int| 0 <= i < r@.len() ==> self.spec_points().to_multiset().contains(r@[i]),
            forall|i: int, j: int|
                0 <= i < j < r@.len() ==> planar_sq_dist(r@[i], query[0], query[1])
                    <= planar_sq_dist(r@[j], query[0], query[1]),
    {
        proof {
            broadcast use to_multiset_contains;
            broadcast use to_multiset_len;

            assert(tree_seq(self.raw).len() == self.points@.len()) by {
                tree_seq(self.raw).to_multiset_ensures();
                self.points@.to_multiset_ensures();
            }
            assert forall|i: int| 0 <= i < tree_seq(self.raw).len() implies in_coord_range(
                tree_seq(self.raw)[i],
            ) by {
                let it = tree_seq(self.raw)[i];
                assert(tree_seq(self.raw).to_multiset().contains(it));
                assert(self.points@.contains(it));
            }
        }
        kd_nearests(&self.raw, query, num)
    }
}

/// Converts a grid coordinate to the index's coordinate type, failing on
/// values a 32-bit signed integer cannot hold.
pub fn coord_to_i32(value: u32) -> (r: Result<i32, Error>)
    ensures
        r is Ok <==> value <= 0x7FFF_FFFF,
        r is Ok ==> r->Ok_0 == value as i32,
        r is Err ==> r->Err_0 == (Error::CoordinateConversionError { value }),
{
    if value <= 0x7FFF_FFFF {
        Ok(value as i32)
    } else {
        Err(Error::CoordinateConversionError { value })
    }
}

/// Scatters `num_texture_points` random coordinates within the image bounds
/// and builds the nearest-neighbor index over them. The index holds exactly
/// `num_texture_points` points; zero points give an empty index.
pub fn generate_search_tree(num_texture_points: u32, dimensions: &ImageDimensions) -> (r: Result<
    SearchTree,
    Error,
>)
    requires
        dimensions.width <= COORD_LIMIT,
        dimensions.height <= COORD_LIMIT,
        num_texture_points > 0 ==> dimensions.width >= 1 && dimensions.height >= 1,
    ensures
        r is Ok,
        r->Ok_0.wf(),
        r->Ok_0.spec_points().len() == num_texture_points,
        forall|i: int|
            0 <= i < num_texture_points ==> (0 <= #[trigger] r->Ok_0.spec_points()[i][0]
                < dimensions.width && 0 <= r->Ok_0.spec_points()[i][1] < dimensions.height),
{
    let mut points: Vec<[i32; 2]> = Vec::new();
    let mut i: u32 = 0;
    while i < num_texture_points
        invariant
            i <= num_texture_points,
            points@.len() == i,
            num_texture_points > 0 ==> dimensions.width >= 1 && dimensions.height >= 1,
            dimensions.width <= COORD_LIMIT,
            dimensions.height <= COORD_LIMIT,
            forall|j: int|
                0 <= j < points@.len() ==> (0 <= #[trigger] points@[j][0] < dimensions.width && 0
                    <= points@[j][1] < dimensions.height),
        decreases num_texture_points - i,
    {
        let rx = random_below(dimensions.width);
        let ry = random_below(dimensions.height);
        let x = match coord_to_i32(rx) {
            Ok(v) => v,
            Err(e) => {
                return Err(e);
            },
        };
        let y = match coord_to_i32(ry) {
            Ok(v) => v,
            Err(e) => {
                return Err(e);
            },
        };
        points.push([x, y]);
        i = i + 1;
    }
    Ok(SearchTree::build(points))
}

} // verus!
