//! The uniform random source, taken on trust from the rand crate.

use vstd::prelude::*;

verus! {

/// rand's small, fast pseudo-random generator, used as the random source for
/// sampling. Its state is opaque here.
#[verifier::external_type_specification]
#[verifier::external_body]
pub struct ExSmallRng(rand::rngs::SmallRng);

/// Relies on rand's SeedableRng::from_entropy: seeds a fresh SmallRng from
/// operating-system entropy. Nothing is promised of the generator's state.
#[verifier::external_body]
pub(crate) fn fresh_rng() -> rand::rngs::SmallRng {
    rand::SeedableRng::from_entropy()
}

/// Relies on rand's Rng::gen_range over the half-open range `0..n`: returns
/// an index drawn uniformly from `[0, n)`, so always strictly below `n`.
/// gen_range panics on an empty range, hence `n` must be positive.
#[verifier::external_body]
pub(crate) fn draw_index(rng: &mut rand::rngs::SmallRng, n: usize) -> (idx: usize)
    requires
        n >= 1,
    ensures
        idx < n,
{
    rand::Rng::gen_range(rng, 0..n)
}

} // verus!
