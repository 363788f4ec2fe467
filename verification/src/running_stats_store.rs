//! The persisted statistics session: the same state machine as
//! [`crate::stats`], living in a byte-keyed scalar store.
//!
//! Each field is persisted under its own key — the session's namespace (or
//! suffixed prefix) followed by a short field tag — in the canonical
//! big-endian encodings of [`crate::codec`]. A missing key denotes the
//! field's default; a value of the wrong shape is malformed and surfaces as
//! a decode error. The session keeps a private cache of optional scalars,
//! populated on first read and overwritten on write, so one unit of work
//! never reads a key twice.
//!
//! The logical value of each field, as a function of the session and the
//! store contents, is given by the `field_*` specification functions; the
//! whole session state by `loaded`. The mutating operations are proved to
//! act on that state exactly as the transition functions of
//! [`crate::stats`] say.

use vstd::prelude::*;
use crate::codec::{
    be4, decode_fixed, decode_opt_sensitivity, decode_u32, decode_wide, encode_fixed,
    encode_opt_sensitivity, encode_u32, encode_wide, fixed_be, fixed_from_be, from_be4,
    opt_sens_be, opt_sens_from_be, wide_be, wide_from_be,
};
use crate::errors::StatsError;
use crate::fixed::{Fixed, WideFixed};
use crate::kv::{KvStore, bytes_clone};
use crate::stats::{
    DP_CALCULATING_STATS, DP_COLLECTING_DATA, RunningStats, add_observation_spec,
    dp_average_spec, dp_count_spec, finalize_spec,
};

verus! {

/// Status byte of a session that is still collecting observations.
pub const STATUS_COLLECTING_DATA: u8 = 0;

/// Status byte of a session that has been finalized for queries.
pub const STATUS_CALCULATING_STATS: u8 = 1;

/// The two states of a session: collecting observations, or finalized and
/// answering queries.
#[derive(Clone, Copy, Debug, PartialEq, Eq, Structural)]
pub enum RunningStatsStatus {
    /// Observations may still be added; queries are refused.
    CollectingData,
    /// Queries may be answered; additions and reversal are refused.
    CalculatingStats,
}

/// The persisted byte of each status.
pub open spec fn status_byte(s: RunningStatsStatus) -> u8 {
    match s {
        RunningStatsStatus::CollectingData => STATUS_COLLECTING_DATA,
        RunningStatsStatus::CalculatingStats => STATUS_CALCULATING_STATS,
    }
}

/// The status a byte denotes (only 0 and 1 are well-formed; this function
/// is read under that guard).
pub open spec fn status_of_byte(b: u8) -> RunningStatsStatus {
    if b == STATUS_CALCULATING_STATS {
        RunningStatsStatus::CalculatingStats
    } else {
        RunningStatsStatus::CollectingData
    }
}

/// Field tag of the observation count (ASCII `count`).
pub open spec fn count_tag() -> Seq<u8> {
    seq![0x63u8, 0x6fu8, 0x75u8, 0x6eu8, 0x74u8]
}

/// Field tag of the running sum (ASCII `sum`).
pub open spec fn sum_tag() -> Seq<u8> {
    seq![0x73u8, 0x75u8, 0x6du8]
}

/// Field tag of the upper bound (ASCII `ub`).
pub open spec fn upper_bound_tag() -> Seq<u8> {
    seq![0x75u8, 0x62u8]
}

/// Field tag of the lower bound (ASCII `lb`).
pub open spec fn lower_bound_tag() -> Seq<u8> {
    seq![0x6cu8, 0x62u8]
}

/// Field tag of epsilon (ASCII `epsilon`).
pub open spec fn epsilon_tag() -> Seq<u8> {
    seq![0x65u8, 0x70u8, 0x73u8, 0x69u8, 0x6cu8, 0x6fu8, 0x6eu8]
}

/// Field tag of the sensitivity override (ASCII `a-sen`).
pub open spec fn avg_sensitivity_tag() -> Seq<u8> {
    seq![0x61u8, 0x2du8, 0x73u8, 0x65u8, 0x6eu8]
}

/// Field tag of the privacy budget (ASCII `budget`).
pub open spec fn privacy_budget_tag() -> Seq<u8> {
    seq![0x62u8, 0x75u8, 0x64u8, 0x67u8, 0x65u8, 0x74u8]
}

/// Field tag of the status byte (ASCII `status`).
pub open spec fn status_tag() -> Seq<u8> {
    seq![0x73u8, 0x74u8, 0x61u8, 0x74u8, 0x75u8, 0x73u8]
}

fn count_tag_vec() -> (r: Vec<u8>)
    ensures
        r@ =~= count_tag(),
{
    let mut v: Vec<u8> = Vec::new();
    v.push(0x63);
    v.push(0x6f);
    v.push(0x75);
    v.push(0x6e);
    v.push(0x74);
    v
}

fn sum_tag_vec() -> (r: Vec<u8>)
    ensures
        r@ =~= sum_tag(),
{
    let mut v: Vec<u8> = Vec::new();
    v.push(0x73);
    v.push(0x75);
    v.push(0x6d);
    v
}

fn upper_bound_tag_vec() -> (r: Vec<u8>)
    ensures
        r@ =~= upper_bound_tag(),
{
    let mut v: Vec<u8> = Vec::new();
    v.push(0x75);
    v.push(0x62);
    v
}

fn lower_bound_tag_vec() -> (r: Vec<u8>)
    ensures
        r@ =~= lower_bound_tag(),
{
    let mut v: Vec<u8> = Vec::new();
    v.push(0x6c);
    v.push(0x62);
    v
}

fn epsilon_tag_vec() -> (r: Vec<u8>)
    ensures
        r@ =~= epsilon_tag(),
{
    let mut v: Vec<u8> = Vec::new();
    v.push(0x65);
    v.push(0x70);
    v.push(0x73);
    v.push(0x69);
    v.push(0x6c);
    v.push(0x6f);
    v.push(0x6e);
    v
}

fn avg_sensitivity_tag_vec() -> (r: Vec<u8>)
    ensures
        r@ =~= avg_sensitivity_tag(),
{
    let mut v: Vec<u8> = Vec::new();
    v.push(0x61);
    v.push(0x2d);
    v.push(0x73);
    v.push(0x65);
    v.push(0x6e);
    v
}

fn privacy_budget_tag_vec() -> (r: Vec<u8>)
    ensures
        r@ =~= privacy_budget_tag(),
{
    let mut v: Vec<u8> = Vec::new();
    v.push(0x62);
    v.push(0x75);
    v.push(0x64);
    v.push(0x67);
    v.push(0x65);
    v.push(0x74);
    v
}

fn status_tag_vec() -> (r: Vec<u8>)
    ensures
        r@ =~= status_tag(),
{
    let mut v: Vec<u8> = Vec::new();
    v.push(0x73);
    v.push(0x74);
    v.push(0x61);
    v.push(0x74);
    v.push(0x75);
    v.push(0x73);
    v
}

/// The 2-byte big-endian length prefix followed by the bytes themselves:
/// the shape under which a suffix joins a namespace, keeping sibling
/// sessions' key spaces byte-disjoint.
pub open spec fn length_prefixed(s: Seq<u8>) -> Seq<u8> {
    seq![((s.len() as u16) >> 8) as u8, (s.len() as u16) as u8] + s
}

/// Append `src` to `out`.
fn extend_bytes(out: &mut Vec<u8>, src: &Vec<u8>)
    ensures
        final(out)@ =~= old(out)@ + src@,
{
    let mut i: usize = 0;
    while i < src.len()
        invariant
            i <= src@.len(),
            out@ =~= old(out)@ + src@.take(i as int),
        decreases src@.len() - i,
    {
        out.push(src[i]);
        i = i + 1;
    }
    proof {
        assert(src@.take(src@.len() as int) =~= src@);
    }
}

/// A persisted statistics session: its key prefix and a lazily populated
/// cache of the scalar fields, each `None` until first read or write.
pub struct RunningStatsStore {
    /// The root namespace the session was constructed with.
    pub namespace: Vec<u8>,
    /// The resolved key prefix, when suffixes were added to the namespace.
    pub prefix: Option<Vec<u8>>,
    /// Cached observation count.
    pub count: Option<u32>,
    /// Cached running sum.
    pub sum: Option<WideFixed>,
    /// Cached upper bound.
    pub upper_bound: Option<Fixed>,
    /// Cached lower bound.
    pub lower_bound: Option<Fixed>,
    /// Cached epsilon.
    pub epsilon: Option<Fixed>,
    /// Cached sensitivity override (cached as present only).
    pub avg_sensitivity: Option<Option<Fixed>>,
    /// Cached privacy budget.
    pub privacy_budget: Option<Fixed>,
    /// Cached status.
    pub status: Option<RunningStatsStatus>,
}

impl RunningStatsStore {
    /// The prefix every key of this session starts with.
    pub open spec fn prefix_spec(self) -> Seq<u8> {
        match self.prefix {
            Some(p) => p@,
            None => self.namespace@,
        }
    }

    /// The key of the observation count.
    pub open spec fn count_key(self) -> Seq<u8> {
        self.prefix_spec() + count_tag()
    }

    /// The key of the running sum.
    pub open spec fn sum_key(self) -> Seq<u8> {
        self.prefix_spec() + sum_tag()
    }

    /// The key of the upper bound.
    pub open spec fn upper_bound_key(self) -> Seq<u8> {
        self.prefix_spec() + upper_bound_tag()
    }

    /// The key of the lower bound.
    pub open spec fn lower_bound_key(self) -> Seq<u8> {
        self.prefix_spec() + lower_bound_tag()
    }

    /// The key of epsilon.
    pub open spec fn epsilon_key(self) -> Seq<u8> {
        self.prefix_spec() + epsilon_tag()
    }

    /// The key of the sensitivity override.
    pub open spec fn avg_sensitivity_key(self) -> Seq<u8> {
        self.prefix_spec() + avg_sensitivity_tag()
    }

    /// The key of the privacy budget.
    pub open spec fn privacy_budget_key(self) -> Seq<u8> {
        self.prefix_spec() + privacy_budget_tag()
    }

    /// The key of the status byte.
    pub open spec fn status_key(self) -> Seq<u8> {
        self.prefix_spec() + status_tag()
    }

    /// The persisted count: 0 when the key is missing, its 4-byte decoding
    /// when well-formed, nothing when malformed.
    pub open spec fn stored_count(self, m: Map<Seq<u8>, Seq<u8>>) -> Option<u32> {
        if m.contains_key(self.count_key()) {
            if m[self.count_key()].len() == 4 {
                Some(from_be4(m[self.count_key()]))
            } else {
                None
            }
        } else {
            Some(0u32)
        }
    }

    /// The persisted sum: 0 when the key is missing.
    pub open spec fn stored_sum(self, m: Map<Seq<u8>, Seq<u8>>) -> Option<WideFixed> {
        if m.contains_key(self.sum_key()) {
            if m[self.sum_key()].len() == 8 {
                Some(wide_from_be(m[self.sum_key()]))
            } else {
                None
            }
        } else {
            Some(WideFixed { raw: 0 })
        }
    }

    /// The persisted upper bound: the least representable value when the
    /// key is missing, so that the first observation always raises it.
    pub open spec fn stored_upper_bound(self, m: Map<Seq<u8>, Seq<u8>>) -> Option<Fixed> {
        if m.contains_key(self.upper_bound_key()) {
            if m[self.upper_bound_key()].len() == 4 {
                Some(fixed_from_be(m[self.upper_bound_key()]))
            } else {
                None
            }
        } else {
            Some(Fixed { raw: i32::MIN })
        }
    }

    /// The persisted lower bound: the greatest representable value when
    /// the key is missing, so that the first observation always lowers it.
    pub open spec fn stored_lower_bound(self, m: Map<Seq<u8>, Seq<u8>>) -> Option<Fixed> {
        if m.contains_key(self.lower_bound_key()) {
            if m[self.lower_bound_key()].len() == 4 {
                Some(fixed_from_be(m[self.lower_bound_key()]))
            } else {
                None
            }
        } else {
            Some(Fixed { raw: i32::MAX })
        }
    }

    /// The persisted epsilon: 1 when the key is missing.
    pub open spec fn stored_epsilon(self, m: Map<Seq<u8>, Seq<u8>>) -> Option<Fixed> {
        if m.contains_key(self.epsilon_key()) {
            if m[self.epsilon_key()].len() == 4 {
                Some(fixed_from_be(m[self.epsilon_key()]))
            } else {
                None
            }
        } else {
            Some(Fixed { raw: 0x10000 })
        }
    }

    /// The persisted sensitivity override: absent when the key is missing.
    pub open spec fn stored_avg_sensitivity(self, m: Map<Seq<u8>, Seq<u8>>) -> Option<
        Option<Fixed>,
    > {
        if m.contains_key(self.avg_sensitivity_key()) {
            opt_sens_from_be(m[self.avg_sensitivity_key()])
        } else {
            Some(None)
        }
    }

    /// The persisted privacy budget: 1 when the key is missing.
    pub open spec fn stored_privacy_budget(self, m: Map<Seq<u8>, Seq<u8>>) -> Option<Fixed> {
        if m.contains_key(self.privacy_budget_key()) {
            if m[self.privacy_budget_key()].len() == 4 {
                Some(fixed_from_be(m[self.privacy_budget_key()]))
            } else {
                None
            }
        } else {
            Some(Fixed { raw: 0x10000 })
        }
    }

    /// The persisted status: collecting when the key is missing; only the
    /// bytes 0 and 1 are well-formed.
    pub open spec fn stored_status(self, m: Map<Seq<u8>, Seq<u8>>) -> Option<RunningStatsStatus> {
        if m.contains_key(self.status_key()) {
            if m[self.status_key()].len() == 1 && m[self.status_key()][0] <= 1 {
                Some(status_of_byte(m[self.status_key()][0]))
            } else {
                None
            }
        } else {
            Some(RunningStatsStatus::CollectingData)
        }
    }

    /// The count this session reads: the cached value when one is held,
    /// else the persisted one.
    pub open spec fn field_count(self, m: Map<Seq<u8>, Seq<u8>>) -> Option<u32> {
        match self.count {
            Some(c) => Some(c),
            None => self.stored_count(m),
        }
    }

    /// The sum this session reads.
    pub open spec fn field_sum(self, m: Map<Seq<u8>, Seq<u8>>) -> Option<WideFixed> {
        match self.sum {
            Some(v) => Some(v),
            None => self.stored_sum(m),
        }
    }

    /// The upper bound this session reads.
    pub open spec fn field_upper_bound(self, m: Map<Seq<u8>, Seq<u8>>) -> Option<Fixed> {
        match self.upper_bound {
            Some(v) => Some(v),
            None => self.stored_upper_bound(m),
        }
    }

    /// The lower bound this session reads.
    pub open spec fn field_lower_bound(self, m: Map<Seq<u8>, Seq<u8>>) -> Option<Fixed> {
        match self.lower_bound {
            Some(v) => Some(v),
            None => self.stored_lower_bound(m),
        }
    }

    /// The epsilon this session reads.
    pub open spec fn field_epsilon(self, m: Map<Seq<u8>, Seq<u8>>) -> Option<Fixed> {
        match self.epsilon {
            Some(v) => Some(v),
            None => self.stored_epsilon(m),
        }
    }

    /// The sensitivity override this session reads.
    pub open spec fn field_avg_sensitivity(self, m: Map<Seq<u8>, Seq<u8>>) -> Option<
        Option<Fixed>,
    > {
        match self.avg_sensitivity {
            Some(v) => Some(v),
            None => self.stored_avg_sensitivity(m),
        }
    }

    /// The privacy budget this session reads.
    pub open spec fn field_privacy_budget(self, m: Map<Seq<u8>, Seq<u8>>) -> Option<Fixed> {
        match self.privacy_budget {
            Some(v) => Some(v),
            None => self.stored_privacy_budget(m),
        }
    }

    /// The status this session reads.
    pub open spec fn field_status(self, m: Map<Seq<u8>, Seq<u8>>) -> Option<RunningStatsStatus> {
        match self.status {
            Some(v) => Some(v),
            None => self.stored_status(m),
        }
    }

    /// The whole session state this session reads, as an in-memory
    /// session; nothing when any field is malformed.
    pub open spec fn loaded(self, m: Map<Seq<u8>, Seq<u8>>) -> Option<RunningStats> {
        if self.field_count(m) is Some && self.field_sum(m) is Some && self.field_upper_bound(m)
            is Some && self.field_lower_bound(m) is Some && self.field_epsilon(m) is Some
            && self.field_avg_sensitivity(m) is Some && self.field_privacy_budget(m) is Some
            && self.field_status(m) is Some {
            Some(
                RunningStats {
                    count: self.field_count(m)->0,
                    sum: self.field_sum(m)->0,
                    upper_bound: self.field_upper_bound(m)->0,
                    lower_bound: self.field_lower_bound(m)->0,
                    epsilon: self.field_epsilon(m)->0,
                    sensitivity_for_average: self.field_avg_sensitivity(m)->0,
                    privacy_budget: self.field_privacy_budget(m)->0,
                    status: status_byte(self.field_status(m)->0),
                },
            )
        } else {
            None
        }
    }

    /// A fresh session over `namespace`. The supplied epsilon, sensitivity
    /// override and privacy budget, where given, become the session's
    /// cached values, read in place of (and shadowing) the persisted ones;
    /// where not given, the first read falls through to the store and its
    /// defaults.
    pub fn new(
        namespace: Vec<u8>,
        epsilon: Option<Fixed>,
        avg_sensitivity: Option<Fixed>,
        privacy_budget: Option<Fixed>,
    ) -> (r: RunningStatsStore)
        ensures
            r == (RunningStatsStore {
                namespace,
                prefix: None,
                count: None,
                sum: None,
                upper_bound: None,
                lower_bound: None,
                epsilon,
                avg_sensitivity: match avg_sensitivity {
                    Some(s) => Some(Some(s)),
                    None => None,
                },
                privacy_budget,
                status: None,
            }),
    {
        RunningStatsStore {
            namespace,
            prefix: None,
            count: None,
            sum: None,
            upper_bound: None,
            lower_bound: None,
            epsilon,
            avg_sensitivity: match avg_sensitivity {
                Some(s) => Some(Some(s)),
                None => None,
            },
            privacy_budget,
            status: None,
        }
    }

    /// A sibling session whose key prefix is this session's prefix
    /// followed by the length-prefixed suffix — byte-disjoint from every
    /// sibling under a different suffix — with an empty cache.
    pub fn add_suffix(&self, suffix: &Vec<u8>) -> (r: RunningStatsStore)
        requires
            suffix@.len() <= u16::MAX,
        ensures
            r.namespace@ == self.namespace@,
            r.prefix_spec() == self.prefix_spec() + length_prefixed(suffix@),
            r.count is None && r.sum is None && r.upper_bound is None && r.lower_bound is None
                && r.epsilon is None && r.avg_sensitivity is None && r.privacy_budget is None
                && r.status is None,
    {
        let len16: u16 = suffix.len() as u16;
        let b0: u8 = #[verifier::truncate] ((len16 >> 8) as u8);
        let b1: u8 = #[verifier::truncate] (len16 as u8);
        let base: &Vec<u8> = match &self.prefix {
            Some(p) => p,
            None => &self.namespace,
        };
        let mut prefix = bytes_clone(base);
        prefix.push(b0);
        prefix.push(b1);
        extend_bytes(&mut prefix, suffix);
        proof {
            assert(prefix@ =~= self.prefix_spec() + length_prefixed(suffix@));
        }
        RunningStatsStore {
            namespace: bytes_clone(&self.namespace),
            prefix: Some(prefix),
            count: None,
            sum: None,
            upper_bound: None,
            lower_bound: None,
            epsilon: None,
            avg_sensitivity: None,
            privacy_budget: None,
            status: None,
        }
    }

    /// The full key of a field: the session prefix followed by the tag.
    fn key_for(&self, tag: &Vec<u8>) -> (r: Vec<u8>)
        ensures
            r@ =~= self.prefix_spec() + tag@,
    {
        let base: &Vec<u8> = match &self.prefix {
            Some(p) => p,
            None => &self.namespace,
        };
        let mut out = bytes_clone(base);
        extend_bytes(&mut out, tag);
        out
    }

    /// Read the observation count (0 when never written).
    fn get_count<S: KvStore>(&mut self, storage: &S) -> (r: Result<u32, StatsError>)
        ensures
            r is Ok <==> old(self).field_count(storage.contents()) is Some,
            r matches Ok(v) ==> old(self).field_count(storage.contents()) == Some(v) && *final(self) == (RunningStatsStore { count: Some(v), ..*old(self) }),
            r is Err ==> r == Err::<u32, StatsError>(StatsError::DecodeError) && *final(self)
                == *old(self),
    {
        match self.count {
            Some(v) => Ok(v),
            None => {
                let key = self.key_for(&count_tag_vec());
                match storage.get(&key) {
                    Some(bytes) => match decode_u32(&bytes) {
                        Some(v) => {
                            self.count = Some(v);
                            Ok(v)
                        },
                        None => Err(StatsError::DecodeError),
                    },
                    None => {
                        self.count = Some(0);
                        Ok(0)
                    },
                }
            },
        }
    }

    /// Whether no observation has been ingested.
    pub fn is_empty<S: KvStore>(&mut self, storage: &S) -> (r: Result<bool, StatsError>)
        ensures
            r is Ok <==> old(self).field_count(storage.contents()) is Some,
            r matches Ok(b) ==> (old(self).field_count(storage.contents()) matches Some(c) && b == (
            c == 0)) && *final(self) == (RunningStatsStore {
                count: old(self).field_count(storage.contents()),
                ..*old(self)
            }),
            r is Err ==> r == Err::<bool, StatsError>(StatsError::DecodeError) && *final(self)
                == *old(self),
    {
        match self.get_count(storage) {
            Ok(c) => Ok(c == 0),
            Err(e) => Err(e),
        }
    }

    /// Write the observation count.
    fn set_count<S: KvStore>(&mut self, storage: &mut S, count: u32)
        ensures
            final(storage).contents() == old(storage).contents().insert(
                old(self).count_key(),
                be4(count),
            ),
            *final(self) == (RunningStatsStore { count: Some(count), ..*old(self) }),
    {
        let key = self.key_for(&count_tag_vec());
        let bytes = encode_u32(count);
        storage.set(&key, &bytes);
        self.count = Some(count);
        proof {
            assert(key@ == old(self).count_key());
            assert(bytes@ == be4(count));
        }
    }

    /// Read the running sum (0 when never written).
    pub fn get_sum<S: KvStore>(&mut self, storage: &S) -> (r: Result<WideFixed, StatsError>)
        ensures
            r is Ok <==> old(self).field_sum(storage.contents()) is Some,
            r matches Ok(v) ==> old(self).field_sum(storage.contents()) == Some(v) && *final(self)
                == (RunningStatsStore { sum: Some(v), ..*old(self) }),
            r is Err ==> r == Err::<WideFixed, StatsError>(StatsError::DecodeError) && *final(self)
                == *old(self),
    {
        match self.sum {
            Some(v) => Ok(v),
            None => {
                let key = self.key_for(&sum_tag_vec());
                match storage.get(&key) {
                    Some(bytes) => match decode_wide(&bytes) {
                        Some(v) => {
                            self.sum = Some(v);
                            Ok(v)
                        },
                        None => Err(StatsError::DecodeError),
                    },
                    None => {
                        let v = WideFixed::zero();
                        self.sum = Some(v);
                        Ok(v)
                    },
                }
            },
        }
    }

    /// Write the running sum.
    fn set_sum<S: KvStore>(&mut self, storage: &mut S, sum: WideFixed)
        ensures
            final(storage).contents() == old(storage).contents().insert(
                old(self).sum_key(),
                wide_be(sum),
            ),
            *final(self) == (RunningStatsStore { sum: Some(sum), ..*old(self) }),
    {
        let key = self.key_for(&sum_tag_vec());
        let bytes = encode_wide(&sum);
        storage.set(&key, &bytes);
        self.sum = Some(sum);
        proof {
            assert(key@ == old(self).sum_key());
            assert(bytes@ == wide_be(sum));
        }
    }

    /// Read the upper bound (the least representable value when never
    /// written).
    pub fn get_upper_bound<S: KvStore>(&mut self, storage: &S) -> (r: Result<Fixed, StatsError>)
        ensures
            r is Ok <==> old(self).field_upper_bound(storage.contents()) is Some,
            r matches Ok(v) ==> old(self).field_upper_bound(storage.contents()) == Some(v)
                && *final(self) == (RunningStatsStore { upper_bound: Some(v), ..*old(self) }),
            r is Err ==> r == Err::<Fixed, StatsError>(StatsError::DecodeError) && *final(self)
                == *old(self),
    {
        match self.upper_bound {
            Some(v) => Ok(v),
            None => {
                let key = self.key_for(&upper_bound_tag_vec());
                match storage.get(&key) {
                    Some(bytes) => match decode_fixed(&bytes) {
                        Some(v) => {
                            self.upper_bound = Some(v);
                            Ok(v)
                        },
                        None => Err(StatsError::DecodeError),
                    },
                    None => {
                        let v = Fixed::min_value();
                        self.upper_bound = Some(v);
                        Ok(v)
                    },
                }
            },
        }
    }

    /// Write the upper bound.
    fn set_upper_bound<S: KvStore>(&mut self, storage: &mut S, upper_bound: Fixed)
        ensures
            final(storage).contents() == old(storage).contents().insert(
                old(self).upper_bound_key(),
                fixed_be(upper_bound),
            ),
            *final(self) == (RunningStatsStore { upper_bound: Some(upper_bound), ..*old(self) }),
    {
        let key = self.key_for(&upper_bound_tag_vec());
        let bytes = encode_fixed(&upper_bound);
        storage.set(&key, &bytes);
        self.upper_bound = Some(upper_bound);
        proof {
            assert(key@ == old(self).upper_bound_key());
            assert(bytes@ == fixed_be(upper_bound));
        }
    }

    /// Read the lower bound (the greatest representable value when never
    /// written).
    pub fn get_lower_bound<S: KvStore>(&mut self, storage: &S) -> (r: Result<Fixed, StatsError>)
        ensures
            r is Ok <==> old(self).field_lower_bound(storage.contents()) is Some,
            r matches Ok(v) ==> old(self).field_lower_bound(storage.contents()) == Some(v)
                && *final(self) == (RunningStatsStore { lower_bound: Some(v), ..*old(self) }),
            r is Err ==> r == Err::<Fixed, StatsError>(StatsError::DecodeError) && *final(self)
                == *old(self),
    {
        match self.lower_bound {
            Some(v) => Ok(v),
            None => {
                let key = self.key_for(&lower_bound_tag_vec());
                match storage.get(&key) {
                    Some(bytes) => match decode_fixed(&bytes) {
                        Some(v) => {
                            self.lower_bound = Some(v);
                            Ok(v)
                        },
                        None => Err(StatsError::DecodeError),
                    },
                    None => {
                        let v = Fixed::max_value();
                        self.lower_bound = Some(v);
                        Ok(v)
                    },
                }
            },
        }
    }

    /// Write the lower bound.
    fn set_lower_bound<S: KvStore>(&mut self, storage: &mut S, lower_bound: Fixed)
        ensures
            final(storage).contents() == old(storage).contents().insert(
                old(self).lower_bound_key(),
                fixed_be(lower_bound),
            ),
            *final(self) == (RunningStatsStore { lower_bound: Some(lower_bound), ..*old(self) }),
    {
        let key = self.key_for(&lower_bound_tag_vec());
        let bytes = encode_fixed(&lower_bound);
        storage.set(&key, &bytes);
        self.lower_bound = Some(lower_bound);
        proof {
            assert(key@ == old(self).lower_bound_key());
            assert(bytes@ == fixed_be(lower_bound));
        }
    }

    /// Read epsilon (1 when never written).
    pub fn get_epsilon<S: KvStore>(&mut self, storage: &S) -> (r: Result<Fixed, StatsError>)
        ensures
            r is Ok <==> old(self).field_epsilon(storage.contents()) is Some,
            r matches Ok(v) ==> old(self).field_epsilon(storage.contents()) == Some(v) && *final(self) == (RunningStatsStore { epsilon: Some(v), ..*old(self) }),
            r is Err ==> r == Err::<Fixed, StatsError>(StatsError::DecodeError) && *final(self)
                == *old(self),
    {
        match self.epsilon {
            Some(v) => Ok(v),
            None => {
                let key = self.key_for(&epsilon_tag_vec());
                match storage.get(&key) {
                    Some(bytes) => match decode_fixed(&bytes) {
                        Some(v) => {
                            self.epsilon = Some(v);
                            Ok(v)
                        },
                        None => Err(StatsError::DecodeError),
                    },
                    None => {
                        let v = Fixed::from_int(1);
                        self.epsilon = Some(v);
                        Ok(v)
                    },
                }
            },
        }
    }

    /// Write epsilon.
    pub fn set_epsilon<S: KvStore>(&mut self, storage: &mut S, epsilon: Fixed)
        ensures
            final(storage).contents() == old(storage).contents().insert(
                old(self).epsilon_key(),
                fixed_be(epsilon),
            ),
            *final(self) == (RunningStatsStore { epsilon: Some(epsilon), ..*old(self) }),
    {
        let key = self.key_for(&epsilon_tag_vec());
        let bytes = encode_fixed(&epsilon);
        storage.set(&key, &bytes);
        self.epsilon = Some(epsilon);
        proof {
            assert(key@ == old(self).epsilon_key());
            assert(bytes@ == fixed_be(epsilon));
        }
    }

    /// Read the sensitivity override (absent when never written).
    pub fn get_avg_sensitivity<S: KvStore>(&mut self, storage: &S) -> (r: Result<
        Option<Fixed>,
        StatsError,
    >)
        ensures
            r is Ok <==> old(self).field_avg_sensitivity(storage.contents()) is Some,
            r matches Ok(v) ==> old(self).field_avg_sensitivity(storage.contents()) == Some(v)
                && *final(self) == (RunningStatsStore { avg_sensitivity: Some(v), ..*old(self) }),
            r is Err ==> r == Err::<Option<Fixed>, StatsError>(StatsError::DecodeError) && *final(self) == *old(self),
    {
        match self.avg_sensitivity {
            Some(v) => Ok(v),
            None => {
                let key = self.key_for(&avg_sensitivity_tag_vec());
                match storage.get(&key) {
                    Some(bytes) => match decode_opt_sensitivity(&bytes) {
                        Some(v) => {
                            self.avg_sensitivity = Some(v);
                            Ok(v)
                        },
                        None => Err(StatsError::DecodeError),
                    },
                    None => {
                        self.avg_sensitivity = Some(None);
                        Ok(None)
                    },
                }
            },
        }
    }

    /// Write the sensitivity override (or its absence).
    pub fn set_average_sensitivity<S: KvStore>(
        &mut self,
        storage: &mut S,
        average_sensitivity: Option<Fixed>,
    ) -> (r: Result<(), StatsError>)
        ensures
            r is Ok,
            final(storage).contents() == old(storage).contents().insert(
                old(self).avg_sensitivity_key(),
                opt_sens_be(average_sensitivity),
            ),
            *final(self) == (RunningStatsStore {
                avg_sensitivity: Some(average_sensitivity),
                ..*old(self)
            }),
    {
        let key = self.key_for(&avg_sensitivity_tag_vec());
        let bytes = encode_opt_sensitivity(&average_sensitivity);
        storage.set(&key, &bytes);
        self.avg_sensitivity = Some(average_sensitivity);
        proof {
            assert(key@ == old(self).avg_sensitivity_key());
            assert(bytes@ == opt_sens_be(average_sensitivity));
        }
        Ok(())
    }

    /// Read the privacy budget (1 when never written).
    pub fn get_privacy_budget<S: KvStore>(&mut self, storage: &S) -> (r: Result<Fixed, StatsError>)
        ensures
            r is Ok <==> old(self).field_privacy_budget(storage.contents()) is Some,
            r matches Ok(v) ==> old(self).field_privacy_budget(storage.contents()) == Some(v)
                && *final(self) == (RunningStatsStore { privacy_budget: Some(v), ..*old(self) }),
            r is Err ==> r == Err::<Fixed, StatsError>(StatsError::DecodeError) && *final(self)
                == *old(self),
    {
        match self.privacy_budget {
            Some(v) => Ok(v),
            None => {
                let key = self.key_for(&privacy_budget_tag_vec());
                match storage.get(&key) {
                    Some(bytes) => match decode_fixed(&bytes) {
                        Some(v) => {
                            self.privacy_budget = Some(v);
                            Ok(v)
                        },
                        None => Err(StatsError::DecodeError),
                    },
                    None => {
                        let v = Fixed::from_int(1);
                        self.privacy_budget = Some(v);
                        Ok(v)
                    },
                }
            },
        }
    }

    /// Write the privacy budget.
    pub fn set_privacy_budget<S: KvStore>(&mut self, storage: &mut S, budget: Fixed)
        ensures
            final(storage).contents() == old(storage).contents().insert(
                old(self).privacy_budget_key(),
                fixed_be(budget),
            ),
            *final(self) == (RunningStatsStore { privacy_budget: Some(budget), ..*old(self) }),
    {
        let key = self.key_for(&privacy_budget_tag_vec());
        let bytes = encode_fixed(&budget);
        storage.set(&key, &bytes);
        self.privacy_budget = Some(budget);
        proof {
            assert(key@ == old(self).privacy_budget_key());
            assert(bytes@ == fixed_be(budget));
        }
    }

    /// Read the status (collecting when never written).
    pub fn get_status<S: KvStore>(&mut self, storage: &S) -> (r: Result<
        RunningStatsStatus,
        StatsError,
    >)
        ensures
            r is Ok <==> old(self).field_status(storage.contents()) is Some,
            r matches Ok(v) ==> old(self).field_status(storage.contents()) == Some(v) && *final(self) == (RunningStatsStore { status: Some(v), ..*old(self) }),
            r is Err ==> r == Err::<RunningStatsStatus, StatsError>(StatsError::DecodeError)
                && *final(self) == *old(self),
    {
        match self.status {
            Some(v) => Ok(v),
            None => {
                let key = self.key_for(&status_tag_vec());
                match storage.get(&key) {
                    Some(bytes) => {
                        if bytes.len() == 1 && bytes[0] <= 1 {
                            let v = if bytes[0] == STATUS_CALCULATING_STATS {
                                RunningStatsStatus::CalculatingStats
                            } else {
                                RunningStatsStatus::CollectingData
                            };
                            self.status = Some(v);
                            Ok(v)
                        } else {
                            Err(StatsError::DecodeError)
                        }
                    },
                    None => {
                        let v = RunningStatsStatus::CollectingData;
                        self.status = Some(v);
                        Ok(v)
                    },
                }
            },
        }
    }

    /// Write the status byte and cache.
    fn write_status<S: KvStore>(&mut self, storage: &mut S, status: RunningStatsStatus)
        ensures
            final(storage).contents() == old(storage).contents().insert(
                old(self).status_key(),
                seq![status_byte(status)],
            ),
            *final(self) == (RunningStatsStore { status: Some(status), ..*old(self) }),
    {
        let key = self.key_for(&status_tag_vec());
        let mut bytes: Vec<u8> = Vec::new();
        bytes.push(
            match status {
                RunningStatsStatus::CollectingData => STATUS_COLLECTING_DATA,
                RunningStatsStatus::CalculatingStats => STATUS_CALCULATING_STATS,
            },
        );
        storage.set(&key, &bytes);
        self.status = Some(status);
        proof {
            assert(key@ == old(self).status_key());
            assert(bytes@ =~= seq![status_byte(status)]);
        }
    }

    /// Reset the collected data: count and sum return to 0. The bounds,
    /// configuration and status are untouched.
    pub fn clear<S: KvStore>(&mut self, storage: &mut S)
        ensures
            final(storage).contents() == old(storage).contents().insert(
                old(self).count_key(),
                be4(0),
            ).insert(old(self).sum_key(), wide_be(WideFixed { raw: 0 })),
            *final(self) == (RunningStatsStore {
                count: Some(0),
                sum: Some(WideFixed { raw: 0 }),
                ..*old(self)
            }),
    {
        self.set_count(storage, 0);
        self.set_sum(storage, WideFixed::zero());
    }

    /// Read every field into the cache and hand back the whole session
    /// state as an in-memory session.
    fn load<S: KvStore>(&mut self, storage: &S) -> (r: Result<RunningStats, StatsError>)
        ensures
            r is Ok <==> old(self).loaded(storage.contents()) is Some,
            r matches Ok(s) ==> old(self).loaded(storage.contents()) == Some(s) && *final(self)
                == (RunningStatsStore {
                count: Some(s.count),
                sum: Some(s.sum),
                upper_bound: Some(s.upper_bound),
                lower_bound: Some(s.lower_bound),
                epsilon: Some(s.epsilon),
                avg_sensitivity: Some(s.sensitivity_for_average),
                privacy_budget: Some(s.privacy_budget),
                status: Some(status_of_byte(s.status)),
                ..*old(self)
            }),
            r is Err ==> r == Err::<RunningStats, StatsError>(StatsError::DecodeError) && old(
                self,
            ).loaded(storage.contents()) is None && final(self).prefix_spec() == old(
                self,
            ).prefix_spec(),
    {
        let count = match self.get_count(storage) {
            Ok(v) => v,
            Err(e) => {
                return Err(e);
            },
        };
        let sum = match self.get_sum(storage) {
            Ok(v) => v,
            Err(e) => {
                return Err(e);
            },
        };
        let upper_bound = match self.get_upper_bound(storage) {
            Ok(v) => v,
            Err(e) => {
                return Err(e);
            },
        };
        let lower_bound = match self.get_lower_bound(storage) {
            Ok(v) => v,
            Err(e) => {
                return Err(e);
            },
        };
        let epsilon = match self.get_epsilon(storage) {
            Ok(v) => v,
            Err(e) => {
                return Err(e);
            },
        };
        let sensitivity_for_average = match self.get_avg_sensitivity(storage) {
            Ok(v) => v,
            Err(e) => {
                return Err(e);
            },
        };
        let privacy_budget = match self.get_privacy_budget(storage) {
            Ok(v) => v,
            Err(e) => {
                return Err(e);
            },
        };
        let status = match self.get_status(storage) {
            Ok(v) => v,
            Err(e) => {
                return Err(e);
            },
        };
        Ok(
            RunningStats {
                count,
                sum,
                upper_bound,
                lower_bound,
                epsilon,
                sensitivity_for_average,
                privacy_budget,
                status: match status {
                    RunningStatsStatus::CollectingData => DP_COLLECTING_DATA,
                    RunningStatsStatus::CalculatingStats => DP_CALCULATING_STATS,
                },
            },
        )
    }

    /// Ingest one observation: acts on the persisted state exactly as
    /// `add_observation_spec` acts on the in-memory session, and persists
    /// nothing on failure.
    pub fn add_observation<S: KvStore>(&mut self, storage: &mut S, x: Fixed) -> (r: Result<
        (),
        StatsError,
    >)
        ensures
            ({
                let m = old(storage).contents();
                let m2 = final(storage).contents();
                match old(self).loaded(m) {
                    None => r == Err::<(), StatsError>(StatsError::DecodeError) && m2 == m,
                    Some(s) => {
                        let (s2, res) = add_observation_spec(s, x);
                        &&& r == res
                        &&& final(self).loaded(m2) == Some(s2)
                        &&& (res is Err ==> m2 == m)
                        &&& (res is Ok ==> m2 == m.insert(
                            old(self).count_key(),
                            be4(s2.count),
                        ).insert(old(self).sum_key(), wide_be(s2.sum)).insert(
                            old(self).upper_bound_key(),
                            fixed_be(s2.upper_bound),
                        ).insert(old(self).lower_bound_key(), fixed_be(s2.lower_bound)))
                    },
                }
            }),
    {
        let mut s = match self.load(storage) {
            Ok(v) => v,
            Err(e) => {
                return Err(e);
            },
        };
        match s.add_observation(x) {
            Ok(()) => {
                self.set_count(storage, s.count);
                self.set_sum(storage, s.sum);
                self.set_upper_bound(storage, s.upper_bound);
                self.set_lower_bound(storage, s.lower_bound);
                Ok(())
            },
            Err(e) => Err(e),
        }
    }

    /// Set the session status. Entering calculation is finalization: it
    /// needs at least one observation and is permanent; returning to
    /// collection is refused once calculation has begun.
    pub fn set_status<S: KvStore>(&mut self, storage: &mut S, status: RunningStatsStatus) -> (r:
        Result<(), StatsError>)
        ensures
            ({
                let m = old(storage).contents();
                let m2 = final(storage).contents();
                match status {
                    RunningStatsStatus::CollectingData => match old(self).field_status(m) {
                        None => r == Err::<(), StatsError>(StatsError::DecodeError) && m2 == m,
                        Some(RunningStatsStatus::CalculatingStats) => r == Err::<(), StatsError>(
                            StatsError::InvalidState,
                        ) && m2 == m,
                        Some(RunningStatsStatus::CollectingData) => r is Ok && m2 == m.insert(
                            old(self).status_key(),
                            seq![STATUS_COLLECTING_DATA],
                        ) && final(self).field_status(m2) == Some(
                            RunningStatsStatus::CollectingData,
                        ),
                    },
                    RunningStatsStatus::CalculatingStats => match old(self).loaded(m) {
                        None => r == Err::<(), StatsError>(StatsError::DecodeError) && m2 == m,
                        Some(s) => {
                            let (s2, res) = finalize_spec(s);
                            &&& r == res
                            &&& final(self).loaded(m2) == Some(s2)
                            &&& (res is Err ==> m2 == m)
                            &&& (res is Ok ==> m2 == m.insert(
                                old(self).status_key(),
                                seq![STATUS_CALCULATING_STATS],
                            ))
                        },
                    },
                }
            }),
    {
        match status {
            RunningStatsStatus::CollectingData => {
                let cur = match self.get_status(storage) {
                    Ok(v) => v,
                    Err(e) => {
                        return Err(e);
                    },
                };
                match cur {
                    RunningStatsStatus::CalculatingStats => Err(StatsError::InvalidState),
                    RunningStatsStatus::CollectingData => {
                        self.write_status(storage, RunningStatsStatus::CollectingData);
                        Ok(())
                    },
                }
            },
            RunningStatsStatus::CalculatingStats => {
                let mut s = match self.load(storage) {
                    Ok(v) => v,
                    Err(e) => {
                        return Err(e);
                    },
                };
                match s.finalize() {
                    Ok(()) => {
                        self.write_status(storage, RunningStatsStatus::CalculatingStats);
                        Ok(())
                    },
                    Err(e) => Err(e),
                }
            },
        }
    }

    /// A differentially private COUNT over the persisted state: acts
    /// exactly as `dp_count_spec` for the noise that was drawn, persisting
    /// only the debited budget, and persisting nothing on failure.
    pub fn fuzzy_count<S: KvStore>(
        &mut self,
        storage: &mut S,
        rng: &mut rand_chacha::ChaChaRng,
    ) -> (r: Result<Fixed, StatsError>)
        ensures
            ({
                let m = old(storage).contents();
                let m2 = final(storage).contents();
                match old(self).loaded(m) {
                    None => r == Err::<Fixed, StatsError>(StatsError::DecodeError) && m2 == m,
                    Some(s) => exists|n: int|
                        #![trigger dp_count_spec(s, n)]
                        {
                            let (s2, res) = dp_count_spec(s, n);
                            &&& r == res
                            &&& final(self).loaded(m2) == Some(s2)
                            &&& (res is Err ==> m2 == m)
                            &&& (res is Ok ==> m2 == m.insert(
                                old(self).privacy_budget_key(),
                                fixed_be(s2.privacy_budget),
                            ))
                        },
                }
            }),
    {
        let mut s = match self.load(storage) {
            Ok(v) => v,
            Err(e) => {
                return Err(e);
            },
        };
        let ghost s0 = s;
        let res = s.dp_count(rng);
        proof {
            let n = choose|n: int| (s, res) == dp_count_spec(s0, n);
            assert((s, res) == dp_count_spec(s0, n));
        }
        match res {
            Ok(v) => {
                self.set_privacy_budget(storage, s.privacy_budget);
                Ok(v)
            },
            Err(e) => Err(e),
        }
    }

    /// A differentially private AVERAGE over the persisted state: acts
    /// exactly as `dp_average_spec` for the two noise values that were
    /// drawn, persisting only the debited budget, and persisting nothing
    /// on failure.
    pub fn fuzzy_average<S: KvStore>(
        &mut self,
        storage: &mut S,
        rng: &mut rand_chacha::ChaChaRng,
    ) -> (r: Result<Fixed, StatsError>)
        ensures
            ({
                let m = old(storage).contents();
                let m2 = final(storage).contents();
                match old(self).loaded(m) {
                    None => r == Err::<Fixed, StatsError>(StatsError::DecodeError) && m2 == m,
                    Some(s) => exists|n1: int, n2: int|
                        #![trigger dp_average_spec(s, n1, n2)]
                        {
                            let (s2, res) = dp_average_spec(s, n1, n2);
                            &&& r == res
                            &&& final(self).loaded(m2) == Some(s2)
                            &&& (res is Err ==> m2 == m)
                            &&& (res is Ok ==> m2 == m.insert(
                                old(self).privacy_budget_key(),
                                fixed_be(s2.privacy_budget),
                            ))
                        },
                }
            }),
    {
        let mut s = match self.load(storage) {
            Ok(v) => v,
            Err(e) => {
                return Err(e);
            },
        };
        let ghost s0 = s;
        let res = s.dp_average(rng);
        proof {
            let (n1, n2) = choose|n1: int, n2: int| (s, res) == dp_average_spec(s0, n1, n2);
            assert((s, res) == dp_average_spec(s0, n1, n2));
        }
        match res {
            Ok(v) => {
                self.set_privacy_budget(storage, s.privacy_budget);
                Ok(v)
            },
            Err(e) => Err(e),
        }
    }
}

} // verus!
