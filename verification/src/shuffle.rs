//! Shuffling, by the random number generator of the `rand` crate.

use vstd::prelude::*;
use rand::seq::SliceRandom;

verus! {

/// `StdRng` of `rand`, the generator that the session shuffles by.  Nothing
/// is known of what it holds.
#[verifier::external_type_specification]
#[verifier::external_body]
pub struct ExStdRng(rand::rngs::StdRng);

/// Shuffles `items` in place with `SliceRandom::shuffle` of `rand`, drawing
/// from `rng`.
///
/// Trusted: the shuffle only swaps elements of the slice, so afterwards
/// `items` holds what it held before, each element as often as before.
/// Nothing is claimed of the order that comes out.
#[verifier::external_body]
pub(crate) fn shuffle<T>(items: &mut Vec<T>, rng: &mut rand::rngs::StdRng)
    ensures
        final(items)@.to_multiset() == old(items)@.to_multiset(),
{
    items.shuffle(rng);
}

} // verus!
