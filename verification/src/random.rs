//! The random draws that the rules rely on.
//!
//! The two functions here are the only places where the crate reaches the
//! `rand` crate. Their contracts are taken on trust; they state what holds of
//! every draw and nothing about its distribution.

use rand::Rng;
use vstd::prelude::*;

verus! {

/// One draw from the closed interval `[low, high]`.
///
/// Calls `rand::Rng::gen_range` on the thread-local generator with the range
/// `low..=high`. That method aborts on an empty range, which `requires` rules
/// out, and otherwise returns a member of the range; the contract claims no
/// more than that membership.
#[verifier::external_body]
pub(crate) fn uniform_inclusive(low: i64, high: i64) -> (r: i64)
    requires
        low <= high,
    ensures
        low <= r <= high,
{
    rand::thread_rng().gen_range(low..=high)
}

/// One draw of an index below `len`.
///
/// Builds `rand::distributions::Uniform::new(0, len)` and hands it to
/// `rand::Rng::sample` on the thread-local generator. The constructor aborts
/// unless `0 < len`, which `requires` demands; a sample of that distribution
/// lies in the half-open range `[0, len)`, which is all the contract claims.
#[verifier::external_body]
pub(crate) fn uniform_index(len: usize) -> (r: usize)
    requires
        0 < len,
    ensures
        r < len,
{
    let dist = rand::distributions::Uniform::new(0, len);
    rand::thread_rng().sample(dist)
}

} // verus!
