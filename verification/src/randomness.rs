//! The source of randomness that key generation draws from.

use rand::rngs::StdRng;
use rand::SeedableRng;
use vstd::prelude::*;

verus! {

/// `rand::rngs::StdRng`, carried through as an opaque value.
#[verifier::external_type_specification]
#[verifier::external_body]
pub struct ExStdRng(StdRng);

/// The generator that `StdRng::seed_from_u64` builds from `seed`.
pub uninterp spec fn seeded_rng(seed: u64) -> StdRng;

/// Calls `<StdRng as SeedableRng>::seed_from_u64`.
///
/// Nothing is proved of this function. Its contract claims that the generator
/// returned is determined by `seed` alone: `seed_from_u64` expands the seed to
/// 32 bytes by a fixed PCG32 recurrence and `from_seed` builds the ChaCha12
/// state from those bytes, reading nothing else. Neither panics. Which
/// generator a seed gives is fixed by the version of `rand` that is linked.
#[verifier::external_body]
pub(crate) fn seed_rng(seed: u64) -> (rng: StdRng)
    ensures
        rng == seeded_rng(seed),
{
    StdRng::seed_from_u64(seed)
}

} // verus!
