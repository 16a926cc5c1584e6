//! The run's random stream.
//!
//! Every random decision of a run is one draw from a single seeded
//! generator. Nothing here is proved about which number a draw yields;
//! the rest of the library is verified for every number in range.

use rand::rngs::StdRng;
use vstd::prelude::*;

verus! {

#[verifier::external_type_specification]
#[verifier::external_body]
pub struct ExStdRng(rand::rngs::StdRng);

/// Calls `rand::SeedableRng::seed_from_u64` for `StdRng`.
///
/// Trusted. Nothing is claimed of the generator that comes back.
#[verifier::external_body]
pub(crate) fn seeded(seed: u64) -> StdRng {
    rand::SeedableRng::seed_from_u64(seed)
}

/// Calls `rand::Rng::gen_range` on the half-open range `0..bound`.
///
/// Trusted. `gen_range` panics on an empty range, so `bound` must be
/// positive; the sample then lies inside the range. Which value it is
/// depends on the generator's state, of which nothing is claimed.
#[verifier::external_body]
pub(crate) fn sample_below(rng: &mut StdRng, bound: usize) -> (r: usize)
    requires
        bound > 0,
    ensures
        r < bound,
{
    rand::Rng::gen_range(rng, 0..bound)
}

/// Draws an index into a pool of `bound` candidates, or nothing when the
/// pool is empty.
pub fn roll(rng: &mut StdRng, bound: usize) -> (r: Option<usize>)
    ensures
        bound == 0 <==> r is None,
        r matches Some(v) ==> v < bound,
{
    if bound == 0 {
        None
    } else {
        Some(sample_below(rng, bound))
    }
}

} // verus!
