//! Trusted boundary to the `rand` crate.
//!
//! The simulation draws building heights, palette colors, wind strength and
//! debris scatter from the thread-local generator.  Nothing can be promised
//! about an individual draw beyond its documented range, so every contract
//! here states only what holds of every outcome.

use vstd::prelude::*;
use rand::Rng;
use rand::RngCore;

verus! {

/// Declares `rand`'s thread-local generator handle so it can appear in
/// signatures; its inside stays opaque.
#[verifier::external_type_specification]
#[verifier::external_body]
pub struct ExThreadRng(rand::rngs::ThreadRng);

/// Relies on `rand::thread_rng`: hands out the lazily initialized
/// thread-local generator.
#[verifier::external_body]
pub(crate) fn fresh_rng() -> rand::rngs::ThreadRng {
    rand::thread_rng()
}

/// Relies on `RngCore::next_u32` for `ThreadRng`: one uniform 32-bit draw.
/// No property of the value can be stated.
#[verifier::external_body]
pub(crate) fn next_random_u32(rng: &mut rand::rngs::ThreadRng) -> u32 {
    rng.next_u32()
}

/// Relies on `Rng::gen_range` for `ThreadRng` on an `i64` half-open range:
/// the documentation promises a value in the given range and a panic only
/// when the range is empty, which the precondition rules out.
#[verifier::external_body]
pub(crate) fn random_in_range(rng: &mut rand::rngs::ThreadRng, lo: i64, hi: i64) -> (r: i64)
    requires
        lo < hi,
    ensures
        lo <= r < hi,
{
    rng.gen_range(lo..hi)
}

} // verus!
