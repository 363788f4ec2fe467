//! The in-memory statistics session: state machine, budget ledger and the
//! deterministic part of the noisy queries.

use rand::SeedableRng;
use rand_chacha::ChaChaRng;
use secret_data_tools::errors::StatsError;
use secret_data_tools::fixed::{Fixed, WideFixed};
use secret_data_tools::stats::{
    DP_CALCULATING_STATS, DP_COLLECTING_DATA, RunningStats,
};

fn session(epsilon: i32, budget: i32) -> RunningStats {
    RunningStats::new(Fixed::from_int(epsilon), None, Fixed::from_int(budget))
}

#[test]
fn new_session_starts_collecting_with_extreme_bounds() {
    let s = session(1, 2);
    assert_eq!(s.count, 0);
    assert_eq!(s.sum.raw(), 0);
    assert_eq!(s.upper_bound.raw(), i32::MIN);
    assert_eq!(s.lower_bound.raw(), i32::MAX);
    assert_eq!(s.status, DP_COLLECTING_DATA);
}

#[test]
fn add_observation_accumulates_and_widens_bounds() {
    let mut s = session(1, 2);
    s.add_observation(Fixed::from_int(3)).unwrap();
    s.add_observation(Fixed::from_int(5)).unwrap();
    s.add_observation(Fixed::from_int(7)).unwrap();
    assert_eq!(s.count, 3);
    assert_eq!(s.sum.raw(), 15i64 << 32);
    assert_eq!(s.upper_bound.raw(), 7 * 65536);
    assert_eq!(s.lower_bound.raw(), 3 * 65536);
}

#[test]
fn finalize_needs_data_and_is_irreversible() {
    let mut s = session(1, 2);
    assert_eq!(s.finalize().unwrap_err(), StatsError::EmptyDataset);
    s.add_observation(Fixed::from_int(1)).unwrap();
    s.finalize().unwrap();
    assert_eq!(s.status, DP_CALCULATING_STATS);
    // a second finalize is refused
    assert_eq!(s.finalize().unwrap_err(), StatsError::InvalidState);
}

#[test]
fn add_observation_fails_after_finalize() {
    let mut s = session(1, 2);
    s.add_observation(Fixed::from_int(1)).unwrap();
    s.finalize().unwrap();
    let before = s.clone();
    assert_eq!(s.add_observation(Fixed::from_int(2)).unwrap_err(), StatsError::InvalidState);
    assert_eq!(s, before);
}

#[test]
fn queries_fail_before_finalize_and_on_empty() {
    let mut rng = ChaChaRng::from_seed([7u8; 32]);
    let mut s = session(1, 5);
    s.add_observation(Fixed::from_int(1)).unwrap();
    assert_eq!(s.dp_count(&mut rng).unwrap_err(), StatsError::InvalidState);
    assert_eq!(s.dp_average(&mut rng).unwrap_err(), StatsError::InvalidState);
    // an (artificially) finalized empty session reports the empty data set
    let mut empty = session(1, 5);
    empty.status = DP_CALCULATING_STATS;
    assert_eq!(empty.dp_count(&mut rng).unwrap_err(), StatsError::EmptyDataset);
    assert_eq!(empty.dp_average(&mut rng).unwrap_err(), StatsError::EmptyDataset);
}

#[test]
fn dp_count_with_noise_adds_noise_and_debits_epsilon() {
    let mut s = session(1, 2);
    s.add_observation(Fixed::from_int(3)).unwrap();
    s.add_observation(Fixed::from_int(5)).unwrap();
    s.add_observation(Fixed::from_int(7)).unwrap();
    s.finalize().unwrap();
    // noise of exactly 0.5: the noisy count is 3.5
    let noise = WideFixed::from_raw(1i64 << 31);
    let r = s.dp_count_with_noise(noise).unwrap();
    assert_eq!(r.raw(), 3 * 65536 + 0x8000);
    assert_eq!(s.privacy_budget.raw(), 1 * 65536);
    // everything else untouched
    assert_eq!(s.count, 3);
    assert_eq!(s.sum.raw(), 15i64 << 32);
}

#[test]
fn dp_count_with_noise_fails_when_budget_below_epsilon() {
    let mut s = session(2, 1);
    s.add_observation(Fixed::from_int(3)).unwrap();
    s.finalize().unwrap();
    let before = s.clone();
    let r = s.dp_count_with_noise(WideFixed::from_raw(0));
    assert_eq!(r.unwrap_err(), StatsError::BudgetExhausted);
    assert_eq!(s, before);
}

#[test]
fn dp_average_with_noise_divides_noisy_sum_by_noisy_count() {
    let mut s = session(1, 3);
    s.add_observation(Fixed::from_int(10)).unwrap();
    s.add_observation(Fixed::from_int(20)).unwrap();
    s.finalize().unwrap();
    // no noise at all: the exact average 15 comes back, at cost 2
    let r = s.dp_average_with_noise(WideFixed::from_raw(0), WideFixed::from_raw(0)).unwrap();
    assert_eq!(r.raw(), 15 * 65536);
    assert_eq!(s.privacy_budget.raw(), 1 * 65536);
}

#[test]
fn dp_average_with_noise_uses_sensitivity_override() {
    // identical sessions, one with an override: the noise-free result is
    // the same, so only the cost accounting is observable here; the
    // override is exercised through the store tests and the noisy path.
    let mut s = RunningStats::new(Fixed::from_int(1), Some(Fixed::from_int(30)), Fixed::from_int(4));
    s.add_observation(Fixed::from_int(10)).unwrap();
    s.add_observation(Fixed::from_int(20)).unwrap();
    s.finalize().unwrap();
    let r = s.dp_average_with_noise(WideFixed::from_raw(0), WideFixed::from_raw(0)).unwrap();
    assert_eq!(r.raw(), 15 * 65536);
    assert_eq!(s.privacy_budget.raw(), 2 * 65536);
}

#[test]
fn dp_average_with_noise_zero_noisy_count_is_an_error() {
    let mut s = session(1, 3);
    s.add_observation(Fixed::from_int(10)).unwrap();
    s.add_observation(Fixed::from_int(20)).unwrap();
    s.finalize().unwrap();
    let before = s.clone();
    // count noise of exactly -2 drives the noisy count to zero
    let r = s.dp_average_with_noise(WideFixed::from_raw(0), WideFixed::from_raw(-(2i64 << 32)));
    assert_eq!(r.unwrap_err(), StatsError::Overflow);
    // the ledger is untouched by the failed query
    assert_eq!(s, before);
}

#[test]
fn dp_average_with_noise_checks_full_cost_up_front() {
    let mut s = session(1, 1);
    s.add_observation(Fixed::from_int(10)).unwrap();
    s.finalize().unwrap();
    let before = s.clone();
    let r = s.dp_average_with_noise(WideFixed::from_raw(0), WideFixed::from_raw(0));
    assert_eq!(r.unwrap_err(), StatsError::BudgetExhausted);
    assert_eq!(s, before);
}

#[test]
fn budget_sequence_of_successful_debits_sums_up() {
    let mut s = session(1, 5);
    s.add_observation(Fixed::from_int(4)).unwrap();
    s.finalize().unwrap();
    // three successful COUNT debits of 1 each
    for expected_left in [4, 3, 2] {
        s.dp_count_with_noise(WideFixed::from_raw(0)).unwrap();
        assert_eq!(s.privacy_budget.raw(), expected_left * 65536);
    }
    // one AVERAGE debit of 2
    s.dp_average_with_noise(WideFixed::from_raw(0), WideFixed::from_raw(0)).unwrap();
    assert_eq!(s.privacy_budget.raw(), 0);
    // and now nothing is affordable, with the budget unchanged
    assert_eq!(
        s.dp_count_with_noise(WideFixed::from_raw(0)).unwrap_err(),
        StatsError::BudgetExhausted
    );
    assert_eq!(s.privacy_budget.raw(), 0);
}

#[test]
fn scenario_count_then_unaffordable_average() {
    // epsilon = 1, budget = 2; observations 3, 5, 7
    let mut rng = ChaChaRng::from_seed([1u8; 32]);
    let mut s = session(1, 2);
    s.add_observation(Fixed::from_int(3)).unwrap();
    s.add_observation(Fixed::from_int(5)).unwrap();
    s.add_observation(Fixed::from_int(7)).unwrap();
    s.finalize().unwrap();
    assert_eq!(s.count, 3);
    assert_eq!(s.sum.raw(), 15i64 << 32);
    // the COUNT query succeeds and spends 1
    let fuzzy = s.dp_count(&mut rng).unwrap();
    assert_eq!(s.privacy_budget.raw(), 1 * 65536);
    // the noisy count is the true count plus Laplace(1) noise: loose sanity band
    let value = fuzzy.raw() as f64 / 65536.0;
    assert!((value - 3.0).abs() < 40.0);
    // the AVERAGE query costs 2 and is refused, leaving the budget at 1
    assert_eq!(s.dp_average(&mut rng).unwrap_err(), StatsError::BudgetExhausted);
    assert_eq!(s.privacy_budget.raw(), 1 * 65536);
}

#[test]
fn scenario_average_within_wide_band() {
    // epsilon = 1, budget = 3; observations 10, 20
    let mut rng = ChaChaRng::from_seed([2u8; 32]);
    let mut s = session(1, 3);
    s.add_observation(Fixed::from_int(10)).unwrap();
    s.add_observation(Fixed::from_int(20)).unwrap();
    s.finalize().unwrap();
    let avg = s.dp_average(&mut rng).unwrap();
    assert_eq!(s.privacy_budget.raw(), 1 * 65536);
    // a wide statistical band around the true average of 15
    let value = avg.raw() as f64 / 65536.0;
    assert!((value - 15.0).abs() < 200.0, "noisy average {value} strays too far");
}

#[test]
fn stored_round_trip_preserves_every_field() {
    let mut s = RunningStats::new(
        Fixed::from_int(2),
        Some(Fixed::from_raw(3 * 65536 + 0x8000)),
        Fixed::from_int(4),
    );
    s.add_observation(Fixed::from_int(-3)).unwrap();
    s.add_observation(Fixed::from_int(9)).unwrap();
    let back = s.clone().into_stored().into_humanized().unwrap();
    assert_eq!(back, s);
}

#[test]
fn stored_round_trip_without_override() {
    let s = RunningStats::new(Fixed::from_int(1), None, Fixed::from_int(1));
    let stored = s.clone().into_stored();
    assert!(stored.sensitivity_for_average.is_none());
    assert_eq!(stored.into_humanized().unwrap(), s);
}

#[test]
fn errors_describe_themselves() {
    assert_eq!(StatsError::InvalidState.describe(), "operation not permitted in current status");
    assert_eq!(StatsError::Overflow.describe(), "arithmetic overflow");
    assert_eq!(StatsError::EmptyDataset.describe(), "no observations collected");
    assert_eq!(StatsError::BudgetExhausted.describe(), "privacy budget exhausted");
    assert_eq!(StatsError::DecodeError.describe(), "malformed persisted bytes");
}

#[test]
fn into_humanized_rejects_malformed_fields() {
    let s = RunningStats::new(Fixed::from_int(1), None, Fixed::from_int(1));
    let mut stored = s.clone().into_stored();
    stored.sum = vec![0; 3];
    assert_eq!(stored.into_humanized().unwrap_err(), StatsError::DecodeError);

    let mut stored = s.clone().into_stored();
    stored.status = 2;
    assert_eq!(stored.into_humanized().unwrap_err(), StatsError::DecodeError);

    let mut stored = s.clone().into_stored();
    stored.sensitivity_for_average = Some(vec![0, 0, 0, 0, 0, 0, 0, 1]);
    assert_eq!(stored.into_humanized().unwrap_err(), StatsError::DecodeError);
}
