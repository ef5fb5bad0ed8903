//! Trusted boundary around the `rand` crate: the thread-local generator
//! type and the one sampling operation the raindrops need.

use vstd::prelude::*;

verus! {

/// The thread-local generator handle of the `rand` crate.  Its value is
/// opaque here: nothing is assumed about the numbers it produces beyond
/// the ranges stated on the wrappers below.
#[verifier::external_type_specification]
#[verifier::external_body]
pub struct ExThreadRng(rand::rngs::ThreadRng);

/// Relies on rand::thread_rng: retrieves a handle to the lazily
/// initialized thread-local random number generator.
#[verifier::external_body]
pub(crate) fn new_thread_rng() -> rand::rngs::ThreadRng {
    rand::thread_rng()
}

/// Relies on rand::Rng::gen_range on the inclusive range `low..=high`: it
/// panics only on an empty range and samples a value within the range.
/// Which value comes back is left open; two calls on equal inputs may
/// differ.
#[verifier::external_body]
pub(crate) fn gen_range_usize(
    rng: &mut rand::rngs::ThreadRng,
    low: usize,
    high: usize,
) -> (sample: usize)
    requires
        low <= high,
    ensures
        low <= sample <= high,
{
    rand::Rng::gen_range(rng, low..=high)
}

} // verus!
