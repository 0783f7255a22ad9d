//! The pseudo-random number source behind the random and snake shows.
//!
//! The generator comes from the `rand` crate; nothing is assumed about the
//! values it produces beyond their range, so every caller is verified for
//! every possible outcome.

use vstd::prelude::*;

verus! {

#[verifier::external_type_specification]
#[verifier::external_body]
pub struct ExSmallRng(rand::rngs::SmallRng);

/// Relies on rand's `SeedableRng::seed_from_u64`: builds the small PRNG from
/// a seed.  Nothing is promised about the stream it yields.
#[verifier::external_body]
pub(crate) fn rng_from_seed(seed: u64) -> (rng: rand::rngs::SmallRng) {
    rand::SeedableRng::seed_from_u64(seed)
}

/// Relies on rand's `Rng::gen_range` over `0..n`: the sample lies below `n`;
/// the call panics on an empty range, so `n` must be positive.
#[verifier::external_body]
pub(crate) fn rand_below(rng: &mut rand::rngs::SmallRng, n: usize) -> (r: usize)
    requires
        n > 0,
    ensures
        r < n,
{
    rand::Rng::gen_range(rng, 0..n)
}

} // verus!
