//! The crate's only trusted boundary: the random number generator that
//! drives the bag sequencer comes from the rand crate.  Verified code never
//! relies on which permutation a shuffle produces, only on it being a
//! permutation of the same elements.

use vstd::prelude::*;

verus! {

/// rand's small, seedable generator, opaque to verification.
#[verifier::external_type_specification]
#[verifier::external_body]
pub struct ExSmallRng(rand::rngs::SmallRng);

/// Relies on rand's `SeedableRng::from_seed` for `SmallRng`: it builds a
/// generator deterministically from the 16-byte seed and cannot fail.
/// Nothing is assumed about the stream it produces.
#[verifier::external_body]
pub(crate) fn rng_from_seed(seed: [u8; 16]) -> rand::rngs::SmallRng {
    <rand::rngs::SmallRng as rand::SeedableRng>::from_seed(seed)
}

/// Relies on rand's `SliceRandom::shuffle`: an in-place Fisher-Yates pass
/// over `v[lo..hi]` that only swaps elements within that range, so the range
/// keeps its multiset of values and everything outside it is untouched.
#[verifier::external_body]
pub(crate) fn shuffle_range(
    rng: &mut rand::rngs::SmallRng,
    v: &mut Vec<usize>,
    lo: usize,
    hi: usize,
)
    requires
        lo <= hi,
        hi <= old(v)@.len(),
    ensures
        final(v)@.len() == old(v)@.len(),
        final(v)@.subrange(lo as int, hi as int).to_multiset() == old(v)@.subrange(
            lo as int,
            hi as int,
        ).to_multiset(),
        forall|i: int|
            0 <= i < old(v)@.len() && !(lo <= i < hi) ==> final(v)@[i] == old(v)@[i],
{
    rand::seq::SliceRandom::shuffle(&mut v[lo..hi], rng)
}

} // verus!
