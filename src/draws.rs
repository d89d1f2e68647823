//! The pseudorandom source threaded through every step that draws.

use rand::Rng;
use vstd::prelude::*;

verus! {

/// The seeded generator that a whole run of trials consumes in order.
#[verifier::external_type_specification]
#[verifier::external_body]
pub struct ExStdRng(rand::rngs::StdRng);

/// Relies on `rand::Rng::random::<u32>`: any `u32` may come back.
#[verifier::external_body]
pub(crate) fn random_u32(rng: &mut rand::rngs::StdRng) -> (r: u32) {
    rng.random::<u32>()
}

/// Relies on `rand::Rng::random_range` over `0..bound`: the value is below
/// `bound` (the call panics on an empty range, which `requires` rules out).
#[verifier::external_body]
pub(crate) fn random_below(rng: &mut rand::rngs::StdRng, bound: u64) -> (r: u64)
    requires
        bound > 0,
    ensures
        r < bound,
{
    rng.random_range(0..bound)
}

} // verus!
