//! The Laplace noise primitive of the differential-privacy mechanism.
//!
//! A Laplace(0, scale) variate is produced by the classical difference of
//! exponentials: two independent unit-interval draws `u1`, `u2` give
//! `e1 = -scale * ln(u1)` and `e2 = -scale * ln(u2)`, and the sample is
//! `e1 - e2`. The construction is bit-reproducible for a given random
//! stream: no numerically equivalent reformulation is substituted, because
//! replicas replaying the same stream must derive identical results.
//!
//! A draw of exactly 0 (whose logarithm is undefined) is clamped up to the
//! smallest positive representable value before the logarithm is taken; any
//! overflow inside the noise computation is reported as an error, never
//! silently wrapped.

use vstd::prelude::*;
use crate::errors::StatsError;
use crate::fixed::{WideFixed, fits_wide, scaled_mul};
use crate::random::random_unit_interval;

verus! {

/// What the outside crate's natural logarithm returns, as a function of
/// its (wide fixed-point) operand: the result's raw representation when the
/// call succeeds, nothing when it reports failure.
pub uninterp spec fn wide_ln_of(x: int) -> Option<int>;

/// Relies on substrate_fixed::transcendental::ln at 64-bit precision with
/// 32 fractional bits: the outcome depends on the operand alone; on a
/// positive operand the call never panics, and it reports by value the
/// failure of an internal step (inverting a tiny operand can overflow).
#[verifier::external_body]
fn wide_ln(x: &WideFixed) -> (r: Result<WideFixed, StatsError>)
    requires
        x@ >= 1,
    ensures
        r matches Ok(v) ==> wide_ln_of(x@) == Some(v@),
        r matches Err(e) ==> wide_ln_of(x@) is None && e == StatsError::Overflow,
{
    match substrate_fixed::transcendental::ln::<
        substrate_fixed::types::I32F32,
        substrate_fixed::types::I32F32,
    >(substrate_fixed::types::I32F32::from_bits(x.raw)) {
        Ok(v) => Ok(WideFixed { raw: v.to_bits() }),
        Err(()) => Err(StatsError::Overflow),
    }
}

/// The noise value assembled from the scale and the two logarithms
/// `l1 = ln(u1)`, `l2 = ln(u2)`: `(-scale)*l1 - (-scale)*l2`, with every
/// step truncated toward zero at 32 fractional bits; nothing when a step
/// leaves the representable range.
pub open spec fn laplace_combined(scale: int, l1: int, l2: int) -> Option<int> {
    if !fits_wide(-scale) {
        None
    } else {
        let e1 = scaled_mul(-scale, l1, 0x1_0000_0000);
        let e2 = scaled_mul(-scale, l2, 0x1_0000_0000);
        if fits_wide(e1) && fits_wide(e2) && fits_wide(e1 - e2) {
            Some(e1 - e2)
        } else {
            None
        }
    }
}

/// The difference-of-exponentials construction is antisymmetric in its two
/// draws: exchanging the logarithms negates the sample exactly, truncation
/// included. This is the structural fact behind the sampler's symmetry
/// around zero; how close the empirical distribution comes to Laplace is a
/// statistical question, checked by tests, not stated here.
pub proof fn lemma_laplace_combined_antisymmetric(scale: int, l1: int, l2: int, v: int)
    requires
        laplace_combined(scale, l1, l2) == Some(v),
        fits_wide(-v),
    ensures
        laplace_combined(scale, l2, l1) == Some(-v),
{
}

/// Assemble one Laplace variate from the two logarithm values; exactly the
/// combinations whose intermediate steps stay representable succeed.
pub fn laplace_from_logs(scale: &WideFixed, l1: &WideFixed, l2: &WideFixed) -> (r: Result<
    WideFixed,
    StatsError,
>)
    ensures
        r is Ok <==> laplace_combined(scale@, l1@, l2@) is Some,
        r matches Ok(v) ==> laplace_combined(scale@, l1@, l2@) == Some(v@),
        r matches Err(e) ==> e == StatsError::Overflow,
{
    let neg_scale = match scale.checked_neg() {
        Some(v) => v,
        None => {
            return Err(StatsError::Overflow);
        },
    };
    let e1 = match neg_scale.checked_mul(l1) {
        Some(v) => v,
        None => {
            return Err(StatsError::Overflow);
        },
    };
    let e2 = match neg_scale.checked_mul(l2) {
        Some(v) => v,
        None => {
            return Err(StatsError::Overflow);
        },
    };
    match e1.checked_sub(&e2) {
        Some(v) => Ok(v),
        None => Err(StatsError::Overflow),
    }
}

/// Clamp a unit-interval draw away from 0, so that its logarithm is
/// defined: the exact representation of 0 becomes the smallest positive
/// representable value.
pub fn clamp_unit_positive(u: &WideFixed) -> (r: WideFixed)
    ensures
        u@ >= 1 ==> r@ == u@,
        u@ < 1 ==> r@ == 1,
{
    if u.raw < 1 {
        WideFixed { raw: 1 }
    } else {
        *u
    }
}

/// Draw one sample from a zero-mean Laplace distribution with the given
/// scale: two fresh unit draws, `e1 = -scale*ln(u1)`, `e2 = -scale*ln(u2)`,
/// result `e1 - e2`. Which unit values come out is the generator's affair,
/// so a success is pinned down only up to them: it is the assembly of the
/// named logarithms of two positive unit-interval values. An overflow
/// inside the computation, or a failure of the outside logarithm, is
/// reported as an error; the generator has then still consumed at most its
/// two draws.
pub fn laplace(rng: &mut rand_chacha::ChaChaRng, scale: WideFixed) -> (r: Result<
    WideFixed,
    StatsError,
>)
    ensures
        r matches Err(e) ==> e == StatsError::Overflow,
        r matches Ok(v) ==> exists|u1: int, u2: int|
            {
                &&& 1 <= u1 < 0x1_0000_0000
                &&& 1 <= u2 < 0x1_0000_0000
                &&& (match (#[trigger] wide_ln_of(u1), #[trigger] wide_ln_of(u2)) {
                    (Some(l1), Some(l2)) => laplace_combined(scale@, l1, l2) == Some(v@),
                    _ => false,
                })
            },
{
    let u1 = random_unit_interval(rng);
    let u1 = clamp_unit_positive(&u1);
    let l1 = match wide_ln(&u1) {
        Ok(v) => v,
        Err(e) => {
            return Err(e);
        },
    };
    let u2 = random_unit_interval(rng);
    let u2 = clamp_unit_positive(&u2);
    let l2 = match wide_ln(&u2) {
        Ok(v) => v,
        Err(e) => {
            return Err(e);
        },
    };
    let r = laplace_from_logs(&scale, &l1, &l2);
    proof {
        if r is Ok {
            assert(wide_ln_of(u1@) == Some(l1@) && wide_ln_of(u2@) == Some(l2@));
        }
    }
    r
}

} // verus!
