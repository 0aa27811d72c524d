//! The random source of the scattering decisions.

use vstd::prelude::*;
use rand::rngs::StdRng;

verus! {

/// `rand::rngs::StdRng`, the seedable generator that callers hand in. Its
/// state is opaque here.
#[verifier::external_type_specification]
#[verifier::external_body]
pub struct ExStdRng(rand::rngs::StdRng);

/// Draws the next 32 bits from the generator with
/// `rand::RngCore::next_u32`. Nothing is claimed of the value drawn: callers
/// are verified for every `u32`.
#[verifier::external_body]
pub(crate) fn next_roll(rng: &mut StdRng) -> (roll: u32) {
    rand::RngCore::next_u32(rng)
}

} // verus!
