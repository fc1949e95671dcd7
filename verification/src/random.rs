//! The one place where the engine meets the random number generator.

use vstd::prelude::*;
use rand::Rng;

verus! {

/// The random number generator of the `rand` crate that the engine draws
/// from. Its state is opaque here: nothing is known of the numbers it will
/// give but what `sample_inclusive` states.
#[verifier::external_type_specification]
#[verifier::external_body]
pub struct ExStdRng(rand::rngs::StdRng);

/// Draws one integer from `[low, high]` with `rand::Rng::gen_range` on the
/// inclusive range `low..=high`. Trusted: `gen_range` panics on an empty
/// range, which `requires` rules out, and for `i32` it returns `low` plus an
/// offset below the width of the range, so the result lies in the range.
/// Which number of the range comes is not stated.
#[verifier::external_body]
pub(crate) fn sample_inclusive(rng: &mut rand::rngs::StdRng, low: i32, high: i32) -> (r: i32)
    requires
        low <= high,
    ensures
        low <= r <= high,
{
    rng.gen_range(low..=high)
}

} // verus!
