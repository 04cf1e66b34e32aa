//! The source of randomness that sampling draws from.

use rand::distributions::Distribution;
use vstd::prelude::*;

verus! {

/// `rand::rngs::StdRng`, the generator that callers hand to `sample`. Nothing
/// is known of its state.
#[verifier::external_type_specification]
#[verifier::external_body]
pub struct ExStdRng(rand::rngs::StdRng);

/// Builds `rand::distributions::Uniform::new(low, high)` and draws one value
/// from it with `Distribution::sample`.
///
/// Trusted: `Uniform::new` panics unless `low < high`, which `requires` rules
/// out, and a value drawn from it lies in the half-open range `[low, high)`.
/// Which value comes depends on the generator's state, so nothing more is
/// claimed.
#[verifier::external_body]
pub(crate) fn draw_between(rng: &mut rand::rngs::StdRng, low: usize, high: usize) -> (v: usize)
    requires
        low < high,
    ensures
        low <= v < high,
{
    rand::distributions::Uniform::new(low, high).sample(rng)
}

} // verus!
