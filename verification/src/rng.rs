//! The crate's one touch point with the random number generator.

use vstd::prelude::*;

verus! {

/// Relies on rand's `RngExt::random_range` on the thread-local generator:
/// the result lies in the given half-open range, which is non-empty here,
/// so the call does not panic. Nothing more can be promised of a random
/// draw.
#[verifier::external_body]
pub(crate) fn random_below(bound: i32) -> (r: i32)
    requires
        0 < bound,
    ensures
        0 <= r < bound,
{
    rand::RngExt::random_range(&mut rand::rng(), 0..bound)
}

} // verus!
