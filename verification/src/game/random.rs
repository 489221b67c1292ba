//! The random source of the game.
//!
//! Nothing here is proved: the contracts below are what the `rand` crate
//! documents of the functions that the bodies call.

use vstd::prelude::*;
use rand::Rng;

verus! {

/// The thread-local generator of the `rand` crate, carried through as an
/// opaque value.
#[verifier::external_type_specification]
#[verifier::external_body]
pub struct ExThreadRng(rand::rngs::ThreadRng);

/// Calls `rand::thread_rng`, which hands out a handle to the generator of the
/// current thread. Nothing is claimed of the handle.
#[verifier::external_body]
pub(crate) fn thread_rng() -> (rng: rand::rngs::ThreadRng) {
    rand::thread_rng()
}

/// Calls `Rng::gen_range` on the inclusive range from `low` to `high`.
/// The range must not be empty, since `gen_range` panics on an empty range.
/// The contract claims only that the sample lies in the range; which value
/// of the range comes back is left open.
#[verifier::external_body]
pub(crate) fn gen_range(rng: &mut rand::rngs::ThreadRng, low: u32, high: u32) -> (sample: u32)
    requires
        low <= high,
    ensures
        low <= sample <= high,
{
    rng.gen_range(low..=high)
}

} // verus!
