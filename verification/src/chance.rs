//! Random draws, taken from the `rand` crate's standard generator.
use rand::rngs::StdRng;
use rand::Rng;
use vstd::prelude::*;

verus! {

#[verifier::external_type_specification]
#[verifier::external_body]
pub struct ExStdRng(StdRng);

/// Calls `rand::Rng::gen_range` on the half-open range from `low` to `high`.
/// That method panics on an empty range, which the precondition leaves out.
/// Of the draw only what holds of every outcome is claimed: it lies in the
/// range. Nothing is proved of this function; the generator's code is trusted.
#[verifier::external_body]
pub(crate) fn uniform_between(rng: &mut StdRng, low: u64, high: u64) -> (drawn: u64)
    requires
        low < high,
    ensures
        low <= drawn < high,
{
    rng.gen_range(low..high)
}

/// Calls `rand::Rng::gen` for a `u16`. Any value may come back, so nothing
/// is claimed of it.
#[verifier::external_body]
pub(crate) fn random_tag(rng: &mut StdRng) -> (tag: u16) {
    rng.gen::<u16>()
}

} // verus!
