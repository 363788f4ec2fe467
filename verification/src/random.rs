//! The pseudorandom source and the uniform unit-interval sampler.
//!
//! The byte source is a caller-supplied ChaCha generator; seeding and
//! reseeding are the caller's responsibility, and every sample consumes one
//! fresh 32-bit draw. The draw `n` is mapped to the wide fixed-point value
//! `n / 2^32`, which is uniform over the representable values of `[0, 1)`.

use vstd::prelude::*;
use crate::fixed::WideFixed;

verus! {

/// The cryptographically-secure pseudorandom generator of the outside
/// crate, opaque to verification; a value of it is only threaded through.
#[verifier::external_type_specification]
#[verifier::external_body]
pub struct ExChaChaRng(rand_chacha::ChaChaRng);

/// Relies on rand's `RngCore::next_u32` for `ChaChaRng`: one fresh 32-bit
/// draw that advances the generator. Nothing is promised of the value.
#[verifier::external_body]
pub(crate) fn next_random_u32(rng: &mut rand_chacha::ChaChaRng) -> (r: u32) {
    rand::RngCore::next_u32(rng)
}

/// The unit-interval value derived from one 32-bit draw: `n / 2^32`,
/// always within `[0, 1)`.
pub fn unit_interval_from_draw(n: u32) -> (r: WideFixed)
    ensures
        r@ == n as int,
        0 <= r@ < 0x1_0000_0000,
{
    WideFixed { raw: n as i64 }
}

/// Draw a uniform fixed-point value in `[0, 1)` from one fresh 32-bit draw
/// of the pseudorandom source. The exact representation of 0 is a possible
/// (if vanishingly likely) outcome; the logarithm step of the Laplace
/// sampler tolerates it by clamping.
pub fn random_unit_interval(rng: &mut rand_chacha::ChaChaRng) -> (r: WideFixed)
    ensures
        0 <= r@ < 0x1_0000_0000,
{
    let n = next_random_u32(rng);
    unit_interval_from_draw(n)
}

} // verus!
