//! Trusted access to the process random number generator.
//!
//! Every random decision in this crate is made by a verified function over a
//! draw obtained here, so the contracts below state only what holds of every
//! outcome: a bound, or preservation of the elements being permuted.

use vstd::prelude::*;

verus! {

/// One part per million; draws in `[0, PPM)` stand for a uniform value in `[0, 1)`.
pub const PPM: u64 = 1_000_000;

/// Relies on rand's `Rng::gen_range` over `0..n`: returns a uniform value of
/// the half-open range, and panics only when the range is empty.
#[verifier::external_body]
pub(crate) fn rand_below(n: u64) -> (r: u64)
    requires
        n >= 1,
    ensures
        r < n,
{
    rand::Rng::gen_range(&mut rand::thread_rng(), 0..n)
}

/// Relies on rand's `SliceRandom::shuffle`: a Fisher-Yates permutation in
/// place, so the elements are rearranged and none is added or removed.
#[verifier::external_body]
pub(crate) fn shuffle_indices(v: &mut Vec<usize>)
    ensures
        final(v)@.to_multiset() == old(v)@.to_multiset(),
        final(v)@.len() == old(v)@.len(),
{
    rand::seq::SliceRandom::shuffle(v.as_mut_slice(), &mut rand::thread_rng())
}

/// A draw standing for a uniform value in `[0, 1)`, in parts per million.
pub(crate) fn rand_unit_ppm() -> (r: u64)
    ensures
        r < PPM,
{
    rand_below(PPM)
}

} // verus!
