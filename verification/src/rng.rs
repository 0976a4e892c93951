//! Trusted bridges to the random generator. Key generation draws on these;
//! nothing is promised of random output beyond its range and, for the
//! shuffle, that it only rearranges.

use rand::seq::SliceRandom;
use rand::Rng;
use vstd::prelude::*;

verus! {

/// Relies on `rand::random`: 32 bytes drawn from the thread-local
/// cryptographically secure generator.
#[verifier::external_body]
pub fn random_bytes_32() -> [u8; 32] {
    rand::random()
}

/// Relies on `rand::Rng::random_range`: an index drawn uniformly below `n`.
/// The call panics on an empty range, so `n` must be positive.
#[verifier::external_body]
pub fn random_below(n: usize) -> (r: usize)
    requires
        0 < n,
    ensures
        r < n,
{
    rand::rng().random_range(0..n)
}

/// Relies on `rand::seq::SliceRandom::shuffle`: a random permutation in
/// place — the elements are rearranged, none added or dropped.
#[verifier::external_body]
pub fn shuffle_chars(v: &mut Vec<char>)
    ensures
        final(v)@.to_multiset() == old(v)@.to_multiset(),
        final(v)@.len() == old(v)@.len(),
{
    v.shuffle(&mut rand::rng());
}

} // verus!
