//! Trusted boundary to the pseudo-random bit source. The pipeline consumes
//! the source as a capability producing 32-bit words on demand; everything
//! the library proves holds for every word the source may hand back.

use vstd::prelude::*;

verus! {

/// `rand::rngs::SmallRng`, the seedable pseudo-random generator that feeds
/// the noise pipeline. Opaque here: its state is never inspected.
#[verifier::external_type_specification]
#[verifier::external_body]
pub struct ExSmallRng(rand::rngs::SmallRng);

/// Relies on rand's `Rng::gen::<u32>`: draws one uniformly distributed
/// 32-bit word and advances the generator state. Nothing is promised of the
/// value; callers must hold for every outcome.
#[verifier::external_body]
pub(crate) fn rng_next_u32(rng: &mut rand::rngs::SmallRng) -> u32 {
    rand::Rng::gen::<u32>(rng)
}

} // verus!
