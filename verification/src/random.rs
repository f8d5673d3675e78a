use rand::rngs::StdRng;
use rand::Rng;
use vstd::prelude::*;

verus! {

/// `rand::rngs::StdRng`, the seedable generator that direction tables are
/// drawn from. Nothing is known of its state.
#[verifier::external_type_specification]
#[verifier::external_body]
pub struct ExStdRng(rand::rngs::StdRng);

/// Draws the next 32-bit value from the generator with `Rng::gen::<u32>`.
/// Each of the 2^32 values can come back, so nothing is claimed of the
/// result or of the generator afterwards.
#[verifier::external_body]
pub(crate) fn draw_units(rng: &mut StdRng) -> (units: u32) {
    rng.gen::<u32>()
}

} // verus!
