//! Trusted bridge to the process-wide random source.
use vstd::prelude::*;

use rand::RngExt;

verus! {

/// Relies on `rand::Rng::random_range` over the thread-local generator
/// `rand::rng()`: returns a value drawn uniformly from `[0, bound)`. Nothing
/// more can be promised of a random value.
#[verifier::external_body]
pub(crate) fn random_below(bound: u32) -> (r: u32)
    requires
        bound >= 1,
    ensures
        r < bound,
{
    rand::rng().random_range(0..bound)
}

} // verus!
