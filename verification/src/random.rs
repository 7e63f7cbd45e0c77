//! The calls into the `rand` crate. Nothing here is proved: each contract
//! states what the crate's source shows of the call.

use vstd::prelude::*;
use rand::seq::SliceRandom;
use rand::Rng;

verus! {

/// `rand::Rng::random_range` on the thread's generator `rand::rng()`, over
/// the range from 0 up to but not including `bound`. The call panics on an
/// empty range, which `requires` leaves out, and returns a value of the
/// range it is given.
#[verifier::external_body]
pub(crate) fn random_below(bound: u8) -> (index: u8)
    requires
        bound > 0,
    ensures
        index < bound,
{
    rand::rng().random_range(0..bound)
}

/// `rand::seq::SliceRandom::shuffle` on the thread's generator `rand::rng()`.
/// The call reorders the slice in place by swapping pairs of its elements, so
/// what comes out holds the same items, each as often as before.
#[verifier::external_body]
pub(crate) fn shuffle<T>(items: &mut Vec<T>)
    ensures
        final(items)@.to_multiset() == old(items)@.to_multiset(),
{
    items.shuffle(&mut rand::rng());
}

} // verus!
