//! The entropy source: a seedable WyRand generator from `bevy_prng`.
//!
//! The simulation uses randomness for exactly one thing, the vertical offset
//! of a freshly spawned obstacle.  Nothing can be promised about a drawn
//! value, so the wrapper below carries no postcondition; every caller is
//! verified for every possible draw.  Seeding is deterministic in the
//! generator itself, so a fixed seed reproduces an identical draw sequence
//! across runs — the tests rely on that behaviour of the outside crate, not
//! on a stated contract.

use vstd::prelude::*;

verus! {

/// Declares `bevy_prng::WyRand` to the verifier; values of it are opaque.
#[verifier::external_type_specification]
#[verifier::external_body]
pub struct ExWyRand(bevy_prng::WyRand);

/// Relies on `rand_core::SeedableRng::seed_from_u64` for `bevy_prng::WyRand`:
/// builds a generator from a 64-bit seed, deterministically and without
/// panicking.
#[verifier::external_body]
pub(crate) fn rng_from_seed(seed: u64) -> bevy_prng::WyRand {
    <bevy_prng::WyRand as rand_core::SeedableRng>::seed_from_u64(seed)
}

/// Relies on `rand_core::Rng::next_u32` for `bevy_prng::WyRand` (infallible,
/// never panics): draws the next 32-bit value and advances the generator
/// state.  No clause constrains the draw; callers hold for every value.
#[verifier::external_body]
pub(crate) fn rng_next_u32(rng: &mut bevy_prng::WyRand) -> u32 {
    rand_core::Rng::next_u32(rng)
}

} // verus!
