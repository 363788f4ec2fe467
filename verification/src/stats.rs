//! The in-memory statistics session: a running aggregate, a privacy-budget
//! ledger and a two-state status machine under one roof.
//!
//! A session collects one observation at a time while its status is
//! collecting, is finalized exactly once (possible only with at least one
//! observation, and never reversible), and from then on answers COUNT and
//! AVERAGE queries under the Laplace mechanism, debiting the privacy budget
//! for every answer. Every operation either applies in full or reports an
//! error and changes nothing.
//!
//! Each mutating operation has a specification-level transition function
//! (`..._spec`) that pins down the new state and the result exactly; the
//! executable methods are proved equal to them, and the laws at the bottom
//! of the module are proved about them.

use vstd::prelude::*;
use crate::codec::{
    decode_fixed, decode_wide, encode_fixed, encode_wide, fixed_be, fixed_from_be, wide_be,
    wide_from_be,
};
use crate::errors::StatsError;
use crate::fixed::{Fixed, WideFixed, fits_fixed, fits_wide, sdiv, tdiv};
use crate::laplace::laplace;

verus! {

/// Status byte of a session that is still collecting observations.
pub const DP_COLLECTING_DATA: u8 = 0;

/// Status byte of a session that has been finalized for queries.
pub const DP_CALCULATING_STATS: u8 = 1;

/// A data set collected one observation at a time, with a running sum, so
/// that COUNT and AVERAGE queries take constant time.
#[derive(Clone, Debug, PartialEq)]
pub struct RunningStats {
    /// How many observations have been ingested.
    pub count: u32,
    /// Their sum, in the wide representation so that scalar observations
    /// accumulate without loss.
    pub sum: WideFixed,
    /// The greatest observation seen so far (the least representable value
    /// before the first observation).
    pub upper_bound: Fixed,
    /// The least observation seen so far (the greatest representable value
    /// before the first observation).
    pub lower_bound: Fixed,
    /// The per-query privacy-loss parameter.
    pub epsilon: Fixed,
    /// When present, used as the sum sensitivity of an AVERAGE query in
    /// place of the bound-derived range.
    pub sensitivity_for_average: Option<Fixed>,
    /// The remaining privacy budget.
    pub privacy_budget: Fixed,
    /// The status byte: collecting or calculating.
    pub status: u8,
}

/// What `add_observation` does: the new session and the result.
pub open spec fn add_observation_spec(s: RunningStats, x: Fixed) -> (RunningStats, Result<
    (),
    StatsError,
>) {
    if s.status != DP_COLLECTING_DATA {
        (s, Err(StatsError::InvalidState))
    } else if s.count as int + 1 > u32::MAX {
        (s, Err(StatsError::Overflow))
    } else if !fits_wide(s.sum@ + x@ * 0x10000) {
        (s, Err(StatsError::Overflow))
    } else {
        (
            RunningStats {
                count: (s.count + 1) as u32,
                sum: WideFixed { raw: (s.sum@ + x@ * 0x10000) as i64 },
                upper_bound: if s.upper_bound@ < x@ {
                    x
                } else {
                    s.upper_bound
                },
                lower_bound: if s.lower_bound@ > x@ {
                    x
                } else {
                    s.lower_bound
                },
                ..s
            },
            Ok(()),
        )
    }
}

/// What `finalize` does: the new session and the result.
pub open spec fn finalize_spec(s: RunningStats) -> (RunningStats, Result<(), StatsError>) {
    if s.status == DP_CALCULATING_STATS {
        (s, Err(StatsError::InvalidState))
    } else if s.count == 0 {
        (s, Err(StatsError::EmptyDataset))
    } else {
        (RunningStats { status: DP_CALCULATING_STATS, ..s }, Ok(()))
    }
}

/// What `dp_count_with_noise` does for a given noise value (raw wide
/// representation): the new session and the result. The noisy count is the
/// true count plus the noise, narrowed to a scalar; the budget is debited
/// by epsilon exactly when a value is returned.
pub open spec fn dp_count_spec(s: RunningStats, noise: int) -> (RunningStats, Result<
    Fixed,
    StatsError,
>) {
    if s.status != DP_CALCULATING_STATS {
        (s, Err(StatsError::InvalidState))
    } else if s.count == 0 {
        (s, Err(StatsError::EmptyDataset))
    } else if s.privacy_budget@ < s.epsilon@ {
        (s, Err(StatsError::BudgetExhausted))
    } else {
        let cw = s.count as int * 0x1_0000_0000;
        let fuzzy = tdiv(cw + noise, 0x10000);
        if s.epsilon@ != 0 && fits_wide(cw) && fits_wide(cw + noise) && fits_fixed(fuzzy)
            && fits_fixed(s.privacy_budget@ - s.epsilon@) {
            (
                RunningStats {
                    privacy_budget: Fixed { raw: (s.privacy_budget@ - s.epsilon@) as i32 },
                    ..s
                },
                Ok(Fixed { raw: fuzzy as i32 }),
            )
        } else {
            (s, Err(StatsError::Overflow))
        }
    }
}

/// The sum sensitivity an AVERAGE query uses: the override when one was
/// supplied, else the bound-derived range.
pub open spec fn average_sensitivity(s: RunningStats) -> int {
    match s.sensitivity_for_average {
        Some(v) => v@,
        None => s.upper_bound@ - s.lower_bound@,
    }
}

/// What `dp_average_with_noise` does for given sum and count noise values
/// (raw wide representation): the new session and the result. The noisy
/// sum is divided by the noisy count (both wide), the quotient narrowed to
/// a scalar, and the budget debited by twice epsilon exactly when a value
/// is returned.
pub open spec fn dp_average_spec(s: RunningStats, sum_noise: int, count_noise: int) -> (
    RunningStats,
    Result<Fixed, StatsError>,
) {
    if s.status != DP_CALCULATING_STATS {
        (s, Err(StatsError::InvalidState))
    } else if s.count == 0 {
        (s, Err(StatsError::EmptyDataset))
    } else if !fits_fixed(2 * s.epsilon@) {
        (s, Err(StatsError::Overflow))
    } else if s.privacy_budget@ < 2 * s.epsilon@ {
        (s, Err(StatsError::BudgetExhausted))
    } else {
        let sens = average_sensitivity(s);
        let fsum = s.sum@ + sum_noise;
        let cw = s.count as int * 0x1_0000_0000;
        let fcount = cw + count_noise;
        let avg = sdiv(fsum * 0x1_0000_0000, fcount);
        let navg = tdiv(avg, 0x10000);
        if s.epsilon@ != 0 && fits_fixed(sens) && fits_wide(fsum) && fits_wide(cw) && fits_wide(
            fcount,
        ) && fcount != 0 && fits_wide(avg) && fits_fixed(navg) && fits_fixed(
            s.privacy_budget@ - 2 * s.epsilon@,
        ) {
            (
                RunningStats {
                    privacy_budget: Fixed { raw: (s.privacy_budget@ - 2 * s.epsilon@) as i32 },
                    ..s
                },
                Ok(Fixed { raw: navg as i32 }),
            )
        } else {
            (s, Err(StatsError::Overflow))
        }
    }
}

impl RunningStats {
    /// A fresh session: nothing collected, bounds at their extremes so
    /// that the first observation updates both, full budget, collecting.
    pub fn new(epsilon: Fixed, sensitivity_for_average: Option<Fixed>, privacy_budget: Fixed) -> (r:
        RunningStats)
        ensures
            r.count == 0,
            r.sum@ == 0,
            r.upper_bound@ == i32::MIN,
            r.lower_bound@ == i32::MAX,
            r.epsilon == epsilon,
            r.sensitivity_for_average == sensitivity_for_average,
            r.privacy_budget == privacy_budget,
            r.status == DP_COLLECTING_DATA,
    {
        RunningStats {
            count: 0,
            sum: WideFixed::zero(),
            upper_bound: Fixed::min_value(),
            lower_bound: Fixed::max_value(),
            epsilon,
            sensitivity_for_average,
            privacy_budget,
            status: DP_COLLECTING_DATA,
        }
    }

    /// Ingest one observation: refused unless the session is collecting;
    /// count and sum are checked together, so a failure leaves neither
    /// updated; the bounds only ever widen.
    pub fn add_observation(&mut self, x: Fixed) -> (r: Result<(), StatsError>)
        ensures
            (*final(self), r) == add_observation_spec(*old(self), x),
    {
        if self.status != DP_COLLECTING_DATA {
            return Err(StatsError::InvalidState);
        }
        let new_count = match self.count.checked_add(1) {
            Some(c) => c,
            None => {
                return Err(StatsError::Overflow);
            },
        };
        let xw = x.widen();
        let new_sum = match self.sum.checked_add(&xw) {
            Some(sv) => sv,
            None => {
                return Err(StatsError::Overflow);
            },
        };
        self.count = new_count;
        self.sum = new_sum;
        if self.upper_bound.lt(&x) {
            self.upper_bound = x;
        }
        if x.lt(&self.lower_bound) {
            self.lower_bound = x;
        }
        Ok(())
    }

    /// Finalize collection: possible only with at least one observation,
    /// and irreversible — any further finalize is refused.
    pub fn finalize(&mut self) -> (r: Result<(), StatsError>)
        ensures
            (*final(self), r) == finalize_spec(*old(self)),
    {
        if self.status == DP_CALCULATING_STATS {
            return Err(StatsError::InvalidState);
        }
        if self.count == 0 {
            return Err(StatsError::EmptyDataset);
        }
        self.status = DP_CALCULATING_STATS;
        Ok(())
    }

    /// The noisy COUNT for a given noise value: exactly the transition
    /// `dp_count_spec`. Public so that the deterministic part of the query
    /// can be exercised on chosen noise.
    pub fn dp_count_with_noise(&mut self, noise: WideFixed) -> (r: Result<Fixed, StatsError>)
        ensures
            (*final(self), r) == dp_count_spec(*old(self), noise@),
    {
        if self.status != DP_CALCULATING_STATS {
            return Err(StatsError::InvalidState);
        }
        if self.count == 0 {
            return Err(StatsError::EmptyDataset);
        }
        if self.privacy_budget.lt(&self.epsilon) {
            return Err(StatsError::BudgetExhausted);
        }
        if self.epsilon.raw() == 0 {
            return Err(StatsError::Overflow);
        }
        let cw = match WideFixed::from_u32(self.count) {
            Some(v) => v,
            None => {
                return Err(StatsError::Overflow);
            },
        };
        let fuzzy_w = match cw.checked_add(&noise) {
            Some(v) => v,
            None => {
                return Err(StatsError::Overflow);
            },
        };
        let fuzzy = match fuzzy_w.narrow() {
            Some(v) => v,
            None => {
                return Err(StatsError::Overflow);
            },
        };
        let new_budget = match self.privacy_budget.checked_sub(&self.epsilon) {
            Some(v) => v,
            None => {
                return Err(StatsError::Overflow);
            },
        };
        self.privacy_budget = new_budget;
        Ok(fuzzy)
    }

    /// A differentially private COUNT: sensitivity 1, scale `1/epsilon`,
    /// cost `epsilon`. The state change and the result are
    /// `dp_count_spec` for the noise that was drawn; every error leaves the
    /// session unchanged.
    pub fn dp_count(&mut self, rng: &mut rand_chacha::ChaChaRng) -> (r: Result<Fixed, StatsError>)
        ensures
            exists|n: int| (*final(self), r) == dp_count_spec(*old(self), n),
            r is Err ==> *final(self) == *old(self),
            r is Ok ==> final(self).privacy_budget@ == old(self).privacy_budget@ - old(
                self,
            ).epsilon@ && *final(self) == (RunningStats {
                privacy_budget: final(self).privacy_budget,
                ..*old(self)
            }),
    {
        if self.status != DP_CALCULATING_STATS {
            proof {
                assert((*self, Err::<Fixed, StatsError>(StatsError::InvalidState)) == dp_count_spec(
                    *self,
                    0,
                ));
            }
            return Err(StatsError::InvalidState);
        }
        if self.count == 0 {
            proof {
                assert((*self, Err::<Fixed, StatsError>(StatsError::EmptyDataset)) == dp_count_spec(
                    *self,
                    0,
                ));
            }
            return Err(StatsError::EmptyDataset);
        }
        if self.privacy_budget.lt(&self.epsilon) {
            proof {
                assert((*self, Err::<Fixed, StatsError>(StatsError::BudgetExhausted))
                    == dp_count_spec(*self, 0));
            }
            return Err(StatsError::BudgetExhausted);
        }
        if self.epsilon.raw() == 0 {
            proof {
                assert((*self, Err::<Fixed, StatsError>(StatsError::Overflow)) == dp_count_spec(
                    *self,
                    0,
                ));
            }
            return Err(StatsError::Overflow);
        }
        // sensitivity is always 1 for COUNT queries
        let scale = match Fixed::from_int(1).widen().checked_div(&self.epsilon.widen()) {
            Some(v) => v,
            None => {
                proof {
                    assert((*self, Err::<Fixed, StatsError>(StatsError::Overflow)) == dp_count_spec(
                        *self,
                        i64::MAX as int,
                    ));
                }
                return Err(StatsError::Overflow);
            },
        };
        let noise = match laplace(rng, scale) {
            Ok(v) => v,
            Err(e) => {
                proof {
                    assert((*self, Err::<Fixed, StatsError>(StatsError::Overflow)) == dp_count_spec(
                        *self,
                        i64::MAX as int,
                    ));
                }
                return Err(e);
            },
        };
        self.dp_count_with_noise(noise)
    }

    /// The noisy AVERAGE for given sum and count noise values: exactly the
    /// transition `dp_average_spec`. Public so that the deterministic part
    /// of the query can be exercised on chosen noise.
    pub fn dp_average_with_noise(&mut self, sum_noise: WideFixed, count_noise: WideFixed) -> (r:
        Result<Fixed, StatsError>)
        ensures
            (*final(self), r) == dp_average_spec(*old(self), sum_noise@, count_noise@),
    {
        if self.status != DP_CALCULATING_STATS {
            return Err(StatsError::InvalidState);
        }
        if self.count == 0 {
            return Err(StatsError::EmptyDataset);
        }
        let two = Fixed::from_int(2);
        let cost = match two.checked_mul(&self.epsilon) {
            Some(v) => v,
            None => {
                proof {
                    crate::fixed::lemma_tdiv_exact(2 * self.epsilon@, 0x10000);
                    assert(2 * self.epsilon@ * 0x10000 == (2 * 0x10000) * self.epsilon@)
                        by (nonlinear_arith);
                }
                return Err(StatsError::Overflow);
            },
        };
        proof {
            crate::fixed::lemma_tdiv_exact(2 * self.epsilon@, 0x10000);
            assert(2 * self.epsilon@ * 0x10000 == (2 * 0x10000) * self.epsilon@)
                by (nonlinear_arith);
        }
        if self.privacy_budget.lt(&cost) {
            return Err(StatsError::BudgetExhausted);
        }
        if self.epsilon.raw() == 0 {
            return Err(StatsError::Overflow);
        }
        if self.sensitivity_for_average.is_none() {
            if self.upper_bound.checked_sub(&self.lower_bound).is_none() {
                return Err(StatsError::Overflow);
            }
        }
        let fsum = match self.sum.checked_add(&sum_noise) {
            Some(v) => v,
            None => {
                return Err(StatsError::Overflow);
            },
        };
        let cw = match WideFixed::from_u32(self.count) {
            Some(v) => v,
            None => {
                return Err(StatsError::Overflow);
            },
        };
        let fcount = match cw.checked_add(&count_noise) {
            Some(v) => v,
            None => {
                return Err(StatsError::Overflow);
            },
        };
        if fcount.raw() == 0 {
            return Err(StatsError::Overflow);
        }
        let avg = match fsum.checked_div(&fcount) {
            Some(v) => v,
            None => {
                return Err(StatsError::Overflow);
            },
        };
        let navg = match avg.narrow() {
            Some(v) => v,
            None => {
                return Err(StatsError::Overflow);
            },
        };
        let new_budget = match self.privacy_budget.checked_sub(&cost) {
            Some(v) => v,
            None => {
                return Err(StatsError::Overflow);
            },
        };
        self.privacy_budget = new_budget;
        Ok(navg)
    }

    /// A differentially private AVERAGE: two sequentially composed queries
    /// (a noisy sum with the override or bound-derived sensitivity, and a
    /// noisy count with sensitivity 1), total cost `2 * epsilon`, checked
    /// against the full remaining budget before any noise is drawn. The
    /// state change and the result are `dp_average_spec` for the two noise
    /// values that were drawn; every error leaves the session unchanged.
    pub fn dp_average(&mut self, rng: &mut rand_chacha::ChaChaRng) -> (r: Result<
        Fixed,
        StatsError,
    >)
        ensures
            exists|n1: int, n2: int| (*final(self), r) == dp_average_spec(*old(self), n1, n2),
            r is Err ==> *final(self) == *old(self),
            r is Ok ==> final(self).privacy_budget@ == old(self).privacy_budget@ - 2 * old(
                self,
            ).epsilon@ && *final(self) == (RunningStats {
                privacy_budget: final(self).privacy_budget,
                ..*old(self)
            }),
    {
        if self.status != DP_CALCULATING_STATS {
            proof {
                assert((*self, Err::<Fixed, StatsError>(StatsError::InvalidState))
                    == dp_average_spec(*self, 0, 0));
            }
            return Err(StatsError::InvalidState);
        }
        if self.count == 0 {
            proof {
                assert((*self, Err::<Fixed, StatsError>(StatsError::EmptyDataset))
                    == dp_average_spec(*self, 0, 0));
            }
            return Err(StatsError::EmptyDataset);
        }
        // sequential composition: a noisy sum and a noisy count
        let two = Fixed::from_int(2);
        let cost = match two.checked_mul(&self.epsilon) {
            Some(v) => v,
            None => {
                proof {
                    crate::fixed::lemma_tdiv_exact(2 * self.epsilon@, 0x10000);
                    assert(2 * self.epsilon@ * 0x10000 == (2 * 0x10000) * self.epsilon@)
                        by (nonlinear_arith);
                    assert((*self, Err::<Fixed, StatsError>(StatsError::Overflow))
                        == dp_average_spec(*self, 0, 0));
                }
                return Err(StatsError::Overflow);
            },
        };
        proof {
            crate::fixed::lemma_tdiv_exact(2 * self.epsilon@, 0x10000);
            assert(2 * self.epsilon@ * 0x10000 == (2 * 0x10000) * self.epsilon@)
                by (nonlinear_arith);
        }
        if self.privacy_budget.lt(&cost) {
            proof {
                assert((*self, Err::<Fixed, StatsError>(StatsError::BudgetExhausted))
                    == dp_average_spec(*self, 0, 0));
            }
            return Err(StatsError::BudgetExhausted);
        }
        if self.epsilon.raw() == 0 {
            proof {
                assert((*self, Err::<Fixed, StatsError>(StatsError::Overflow)) == dp_average_spec(
                    *self,
                    0,
                    i64::MAX as int,
                ));
            }
            return Err(StatsError::Overflow);
        }
        let sens = match self.sensitivity_for_average {
            Some(v) => v,
            None => {
                match self.upper_bound.checked_sub(&self.lower_bound) {
                    Some(v) => v,
                    None => {
                        proof {
                            assert((*self, Err::<Fixed, StatsError>(StatsError::Overflow))
                                == dp_average_spec(*self, 0, i64::MAX as int));
                        }
                        return Err(StatsError::Overflow);
                    },
                }
            },
        };
        let scale = match sens.widen().checked_div(&self.epsilon.widen()) {
            Some(v) => v,
            None => {
                proof {
                    assert((*self, Err::<Fixed, StatsError>(StatsError::Overflow))
                        == dp_average_spec(*self, 0, i64::MAX as int));
                }
                return Err(StatsError::Overflow);
            },
        };
        let sum_noise = match laplace(rng, scale) {
            Ok(v) => v,
            Err(e) => {
                proof {
                    assert((*self, Err::<Fixed, StatsError>(StatsError::Overflow))
                        == dp_average_spec(*self, 0, i64::MAX as int));
                }
                return Err(e);
            },
        };
        // the count term has sensitivity 1
        let count_scale = match Fixed::from_int(1).widen().checked_div(&self.epsilon.widen()) {
            Some(v) => v,
            None => {
                proof {
                    assert((*self, Err::<Fixed, StatsError>(StatsError::Overflow))
                        == dp_average_spec(*self, 0, i64::MAX as int));
                }
                return Err(StatsError::Overflow);
            },
        };
        let count_noise = match laplace(rng, count_scale) {
            Ok(v) => v,
            Err(e) => {
                proof {
                    assert((*self, Err::<Fixed, StatsError>(StatsError::Overflow))
                        == dp_average_spec(*self, 0, i64::MAX as int));
                }
                return Err(e);
            },
        };
        self.dp_average_with_noise(sum_noise, count_noise)
    }

    /// The byte-level form of this session, field by field, under the
    /// canonical big-endian encodings.
    pub fn into_stored(self) -> (r: StoredRunningStats)
        ensures
            r.count == self.count,
            r.sum@ =~= wide_be(self.sum),
            r.upper_bound@ =~= fixed_be(self.upper_bound),
            r.lower_bound@ =~= fixed_be(self.lower_bound),
            r.epsilon@ =~= fixed_be(self.epsilon),
            r.sensitivity_for_average is Some <==> self.sensitivity_for_average is Some,
            (match (r.sensitivity_for_average, self.sensitivity_for_average) {
                (Some(b), Some(f)) => b@ =~= wide_be(f.widened()),
                (None, None) => true,
                _ => false,
            }),
            r.privacy_budget@ =~= fixed_be(self.privacy_budget),
            r.status == self.status,
    {
        let sens_bytes = match &self.sensitivity_for_average {
            Some(f) => Some(encode_wide(&f.widen())),
            None => None,
        };
        StoredRunningStats {
            count: self.count,
            sum: encode_wide(&self.sum),
            upper_bound: encode_fixed(&self.upper_bound),
            lower_bound: encode_fixed(&self.lower_bound),
            epsilon: encode_fixed(&self.epsilon),
            sensitivity_for_average: sens_bytes,
            privacy_budget: encode_fixed(&self.privacy_budget),
            status: self.status,
        }
    }
}

/// The byte-level form of a session: each fixed-point field as its
/// canonical big-endian encoding, the optional sensitivity override as the
/// wide encoding of its exact widening.
#[derive(Clone, Debug, PartialEq)]
pub struct StoredRunningStats {
    /// How many observations have been ingested.
    pub count: u32,
    /// 8-byte encoding of the wide running sum.
    pub sum: Vec<u8>,
    /// 4-byte encoding of the greatest observation.
    pub upper_bound: Vec<u8>,
    /// 4-byte encoding of the least observation.
    pub lower_bound: Vec<u8>,
    /// 4-byte encoding of the privacy-loss parameter.
    pub epsilon: Vec<u8>,
    /// 8-byte encoding of the widened sensitivity override, when present.
    pub sensitivity_for_average: Option<Vec<u8>>,
    /// 4-byte encoding of the remaining privacy budget.
    pub privacy_budget: Vec<u8>,
    /// The status byte.
    pub status: u8,
}

/// True when every byte field of `s` carries a well-formed encoding.
pub open spec fn stored_well_formed(s: StoredRunningStats) -> bool {
    &&& s.sum@.len() == 8
    &&& s.upper_bound@.len() == 4
    &&& s.lower_bound@.len() == 4
    &&& s.epsilon@.len() == 4
    &&& (match s.sensitivity_for_average {
        Some(b) => b@.len() == 8 && wide_from_be(b@).exact_scalar() is Some,
        None => true,
    })
    &&& s.privacy_budget@.len() == 4
    &&& s.status <= 1
}

/// The session a well-formed byte-level form decodes to.
pub open spec fn humanized(s: StoredRunningStats) -> RunningStats
    recommends
        stored_well_formed(s),
{
    RunningStats {
        count: s.count,
        sum: wide_from_be(s.sum@),
        upper_bound: fixed_from_be(s.upper_bound@),
        lower_bound: fixed_from_be(s.lower_bound@),
        epsilon: fixed_from_be(s.epsilon@),
        sensitivity_for_average: match s.sensitivity_for_average {
            Some(b) => wide_from_be(b@).exact_scalar(),
            None => None,
        },
        privacy_budget: fixed_from_be(s.privacy_budget@),
        status: s.status,
    }
}

impl StoredRunningStats {
    /// Decode the byte-level form back into a session. Exactly the
    /// well-formed forms decode; a field of the wrong length, an inexact
    /// sensitivity payload or a status byte other than 0/1 is malformed.
    pub fn into_humanized(self) -> (r: Result<RunningStats, StatsError>)
        ensures
            r is Ok <==> stored_well_formed(self),
            r matches Ok(h) ==> h == humanized(self),
            r matches Err(e) ==> e == StatsError::DecodeError,
    {
        let sum = match decode_wide(&self.sum) {
            Some(v) => v,
            None => {
                return Err(StatsError::DecodeError);
            },
        };
        let upper_bound = match decode_fixed(&self.upper_bound) {
            Some(v) => v,
            None => {
                return Err(StatsError::DecodeError);
            },
        };
        let lower_bound = match decode_fixed(&self.lower_bound) {
            Some(v) => v,
            None => {
                return Err(StatsError::DecodeError);
            },
        };
        let epsilon = match decode_fixed(&self.epsilon) {
            Some(v) => v,
            None => {
                return Err(StatsError::DecodeError);
            },
        };
        let sensitivity_for_average = match &self.sensitivity_for_average {
            Some(b) => {
                let wide = match decode_wide(b) {
                    Some(v) => v,
                    None => {
                        return Err(StatsError::DecodeError);
                    },
                };
                match wide.exact_narrow() {
                    Some(f) => Some(f),
                    None => {
                        return Err(StatsError::DecodeError);
                    },
                }
            },
            None => None,
        };
        let privacy_budget = match decode_fixed(&self.privacy_budget) {
            Some(v) => v,
            None => {
                return Err(StatsError::DecodeError);
            },
        };
        if self.status > 1 {
            return Err(StatsError::DecodeError);
        }
        Ok(
            RunningStats {
                count: self.count,
                sum,
                upper_bound,
                lower_bound,
                epsilon,
                sensitivity_for_average,
                privacy_budget,
                status: self.status,
            },
        )
    }
}

/// The remaining budget after a sequence of debits, each applied only when
/// it is affordable in full; nothing as soon as one is not.
pub open spec fn debit_all(budget: int, costs: Seq<int>) -> Option<int>
    decreases costs.len(),
{
    if costs.len() == 0 {
        Some(budget)
    } else if costs[0] <= budget {
        debit_all(budget - costs[0], costs.drop_first())
    } else {
        None
    }
}

/// The sum of a sequence of costs.
pub open spec fn total_cost(costs: Seq<int>) -> int
    decreases costs.len(),
{
    if costs.len() == 0 {
        0
    } else {
        costs[0] + total_cost(costs.drop_first())
    }
}

/// Budget monotonicity: a sequence of successful debits of positive costs
/// from a non-negative budget ends at exactly the initial budget minus the
/// total cost, and the budget never goes negative along the way.
pub proof fn lemma_budget_monotonic(budget: int, costs: Seq<int>)
    requires
        budget >= 0,
        forall|i: int| 0 <= i < costs.len() ==> costs[i] > 0,
        debit_all(budget, costs) is Some,
    ensures
        debit_all(budget, costs) == Some(budget - total_cost(costs)),
        budget - total_cost(costs) >= 0,
        total_cost(costs) >= 0,
    decreases costs.len(),
{
    if costs.len() == 0 {
    } else {
        assert(costs[0] <= budget);
        lemma_budget_monotonic(budget - costs[0], costs.drop_first());
    }
}

/// A debit that exceeds the remaining budget fails and leaves the budget
/// unchanged: in particular a COUNT query whose cost `epsilon` exceeds the
/// budget is refused with the budget intact.
pub proof fn lemma_debit_exceeding_budget_fails(s: RunningStats, noise: int)
    requires
        s.status == DP_CALCULATING_STATS,
        s.count > 0,
        s.privacy_budget@ < s.epsilon@,
    ensures
        dp_count_spec(s, noise) == (s, Err::<Fixed, StatsError>(StatsError::BudgetExhausted)),
{
}

/// A successful COUNT query debits exactly `epsilon` and touches nothing
/// else of the session.
pub proof fn lemma_dp_count_debits_epsilon(s: RunningStats, noise: int)
    requires
        dp_count_spec(s, noise).1 is Ok,
    ensures
        dp_count_spec(s, noise).0.privacy_budget@ == s.privacy_budget@ - s.epsilon@,
        dp_count_spec(s, noise).0 == (RunningStats {
            privacy_budget: dp_count_spec(s, noise).0.privacy_budget,
            ..s
        }),
{
}

/// A successful AVERAGE query debits exactly `2 * epsilon` and touches
/// nothing else of the session.
pub proof fn lemma_dp_average_debits_twice_epsilon(s: RunningStats, n1: int, n2: int)
    requires
        dp_average_spec(s, n1, n2).1 is Ok,
    ensures
        dp_average_spec(s, n1, n2).0.privacy_budget@ == s.privacy_budget@ - 2 * s.epsilon@,
        dp_average_spec(s, n1, n2).0 == (RunningStats {
            privacy_budget: dp_average_spec(s, n1, n2).0.privacy_budget,
            ..s
        }),
{
}

/// While collecting, the aggregate only ever grows: the count never
/// decreases, the bounds only widen, and a successful addition counts one
/// observation, adds exactly its value to the sum, and leaves both bounds
/// enclosing it.
pub proof fn lemma_add_observation_widens(s: RunningStats, x: Fixed)
    ensures
        add_observation_spec(s, x).0.count >= s.count,
        add_observation_spec(s, x).0.upper_bound@ >= s.upper_bound@,
        add_observation_spec(s, x).0.lower_bound@ <= s.lower_bound@,
        add_observation_spec(s, x).1 is Ok ==> {
            let t = add_observation_spec(s, x).0;
            &&& t.count == s.count + 1
            &&& t.sum@ == s.sum@ + x@ * 0x10000
            &&& t.upper_bound@ >= x@
            &&& t.lower_bound@ <= x@
        },
{
}

/// Once finalization has succeeded, adding an observation is refused with
/// `InvalidState` and changes nothing.
pub proof fn lemma_no_additions_after_finalize(s: RunningStats, x: Fixed)
    requires
        finalize_spec(s).1 is Ok,
    ensures
        add_observation_spec(finalize_spec(s).0, x) == (
            finalize_spec(s).0,
            Err::<(), StatsError>(StatsError::InvalidState),
        ),
{
}

/// Finalizing an empty session is refused with `EmptyDataset` and changes
/// nothing; finalizing succeeds exactly on a collecting session with at
/// least one observation.
pub proof fn lemma_finalize_needs_data(s: RunningStats)
    ensures
        s.status != DP_CALCULATING_STATS && s.count == 0 ==> finalize_spec(s) == (
            s,
            Err::<(), StatsError>(StatsError::EmptyDataset),
        ),
        finalize_spec(s).1 is Ok <==> s.status != DP_CALCULATING_STATS && s.count > 0,
{
}

/// Once finalization has succeeded, finalizing again (and with it any
/// attempt to restart collection) is refused with `InvalidState`.
pub proof fn lemma_finalize_irreversible(s: RunningStats)
    requires
        finalize_spec(s).1 is Ok,
    ensures
        finalize_spec(finalize_spec(s).0) == (
            finalize_spec(s).0,
            Err::<(), StatsError>(StatsError::InvalidState),
        ),
{
}

/// Queries on a session that is still collecting are refused with
/// `InvalidState`; queries on a finalized session with no observations are
/// refused with `EmptyDataset`. Either way nothing changes.
pub proof fn lemma_queries_need_finalized_data(s: RunningStats, n1: int, n2: int)
    ensures
        s.status != DP_CALCULATING_STATS ==> dp_count_spec(s, n1) == (
            s,
            Err::<Fixed, StatsError>(StatsError::InvalidState),
        ) && dp_average_spec(s, n1, n2) == (s, Err::<Fixed, StatsError>(StatsError::InvalidState)),
        s.status == DP_CALCULATING_STATS && s.count == 0 ==> dp_count_spec(s, n1) == (
            s,
            Err::<Fixed, StatsError>(StatsError::EmptyDataset),
        ) && dp_average_spec(s, n1, n2) == (s, Err::<Fixed, StatsError>(StatsError::EmptyDataset)),
{
}

} // verus!
