//! Randomness, behind contracts that hold of every outcome.

use rand::seq::SliceRandom;
use rand::Rng;
use vstd::prelude::*;

verus! {

/// Relies on rand's SliceRandom::shuffle (with the thread generator): a
/// permutation in place — the same elements with the same multiplicities,
/// in an order nothing here constrains.
#[verifier::external_body]
pub(crate) fn shuffle<T>(v: &mut Vec<T>)
    ensures
        final(v)@.to_multiset() == old(v)@.to_multiset(),
        final(v)@.len() == old(v)@.len(),
{
    v.shuffle(&mut rand::thread_rng());
}

/// Relies on rand's Rng::gen_range (with the thread generator): some value
/// below `n`; which one depends on the generator's state alone.
#[verifier::external_body]
pub(crate) fn rand_below(n: usize) -> (r: usize)
    requires
        1 <= n,
    ensures
        r < n,
{
    rand::thread_rng().gen_range(0..n)
}

/// Relies on rand's Rng::gen_ratio (with the thread generator): true with
/// probability `numerator / denominator`; nothing is assumed of the value.
#[verifier::external_body]
pub(crate) fn rand_ratio(numerator: u32, denominator: u32) -> (r: bool)
    requires
        1 <= denominator,
        numerator <= denominator,
{
    rand::thread_rng().gen_ratio(numerator, denominator)
}

} // verus!
