//! The persisted statistics session over the in-memory key-value store.

use rand::SeedableRng;
use rand_chacha::ChaChaRng;
use secret_data_tools::errors::StatsError;
use secret_data_tools::fixed::{Fixed, WideFixed};
use secret_data_tools::kv::{KvStore, MemoryStorage};
use secret_data_tools::running_stats_store::{RunningStatsStatus, RunningStatsStore};

fn fresh(epsilon: i32, budget: i32) -> RunningStatsStore {
    RunningStatsStore::new(
        b"stats".to_vec(),
        Some(Fixed::from_int(epsilon)),
        None,
        Some(Fixed::from_int(budget)),
    )
}

#[test]
fn memory_storage_get_set() {
    let mut mem = MemoryStorage::new();
    assert!(mem.get(&b"k".to_vec()).is_none());
    mem.set(&b"k".to_vec(), &b"v1".to_vec());
    assert_eq!(mem.get(&b"k".to_vec()).unwrap(), b"v1".to_vec());
    mem.set(&b"k".to_vec(), &b"v2".to_vec());
    assert_eq!(mem.get(&b"k".to_vec()).unwrap(), b"v2".to_vec());
    assert!(mem.get(&b"other".to_vec()).is_none());
}

#[test]
fn missing_keys_have_their_defaults() {
    let mem = MemoryStorage::new();
    let mut s = RunningStatsStore::new(b"stats".to_vec(), None, None, None);
    assert!(s.is_empty(&mem).unwrap());
    assert_eq!(s.get_sum(&mem).unwrap().raw(), 0);
    assert_eq!(s.get_upper_bound(&mem).unwrap().raw(), i32::MIN);
    assert_eq!(s.get_lower_bound(&mem).unwrap().raw(), i32::MAX);
    assert_eq!(s.get_epsilon(&mem).unwrap().raw(), 65536);
    assert_eq!(s.get_avg_sensitivity(&mem).unwrap(), None);
    assert_eq!(s.get_privacy_budget(&mem).unwrap().raw(), 65536);
    assert_eq!(s.get_status(&mem).unwrap(), RunningStatsStatus::CollectingData);
}

#[test]
fn constructor_values_shadow_the_store() {
    let mem = MemoryStorage::new();
    let mut s = RunningStatsStore::new(
        b"stats".to_vec(),
        Some(Fixed::from_int(2)),
        Some(Fixed::from_int(9)),
        Some(Fixed::from_int(7)),
    );
    assert_eq!(s.get_epsilon(&mem).unwrap().raw(), 2 * 65536);
    assert_eq!(s.get_avg_sensitivity(&mem).unwrap().unwrap().raw(), 9 * 65536);
    assert_eq!(s.get_privacy_budget(&mem).unwrap().raw(), 7 * 65536);
}

#[test]
fn setters_persist_for_later_sessions() {
    let mut mem = MemoryStorage::new();
    let mut s = RunningStatsStore::new(b"stats".to_vec(), None, None, None);
    s.set_epsilon(&mut mem, Fixed::from_int(3));
    s.set_privacy_budget(&mut mem, Fixed::from_int(5));
    s.set_average_sensitivity(&mut mem, Some(Fixed::from_int(11))).unwrap();
    // a later session over the same namespace reads the persisted values
    let mut t = RunningStatsStore::new(b"stats".to_vec(), None, None, None);
    assert_eq!(t.get_epsilon(&mem).unwrap().raw(), 3 * 65536);
    assert_eq!(t.get_privacy_budget(&mem).unwrap().raw(), 5 * 65536);
    assert_eq!(t.get_avg_sensitivity(&mem).unwrap().unwrap().raw(), 11 * 65536);
    // clearing the override persists its absence
    s.set_average_sensitivity(&mut mem, None).unwrap();
    let mut u = RunningStatsStore::new(b"stats".to_vec(), None, None, None);
    assert_eq!(u.get_avg_sensitivity(&mem).unwrap(), None);
}

#[test]
fn add_observation_persists_count_sum_and_bounds() {
    let mut mem = MemoryStorage::new();
    let mut s = fresh(1, 2);
    s.add_observation(&mut mem, Fixed::from_int(3)).unwrap();
    s.add_observation(&mut mem, Fixed::from_int(7)).unwrap();
    s.add_observation(&mut mem, Fixed::from_int(5)).unwrap();
    let mut t = RunningStatsStore::new(b"stats".to_vec(), None, None, None);
    assert!(!t.is_empty(&mem).unwrap());
    assert_eq!(t.get_sum(&mem).unwrap().raw(), 15i64 << 32);
    assert_eq!(t.get_upper_bound(&mem).unwrap().raw(), 7 * 65536);
    assert_eq!(t.get_lower_bound(&mem).unwrap().raw(), 3 * 65536);
}

#[test]
fn finalize_needs_data_and_blocks_reversal() {
    let mut mem = MemoryStorage::new();
    let mut s = fresh(1, 2);
    assert_eq!(
        s.set_status(&mut mem, RunningStatsStatus::CalculatingStats).unwrap_err(),
        StatsError::EmptyDataset
    );
    s.add_observation(&mut mem, Fixed::from_int(4)).unwrap();
    s.set_status(&mut mem, RunningStatsStatus::CalculatingStats).unwrap();
    assert_eq!(s.get_status(&mem).unwrap(), RunningStatsStatus::CalculatingStats);
    // the transition is one-way
    assert_eq!(
        s.set_status(&mut mem, RunningStatsStatus::CollectingData).unwrap_err(),
        StatsError::InvalidState
    );
    // and a second finalization is refused too
    assert_eq!(
        s.set_status(&mut mem, RunningStatsStatus::CalculatingStats).unwrap_err(),
        StatsError::InvalidState
    );
    // additions are refused once finalized
    assert_eq!(
        s.add_observation(&mut mem, Fixed::from_int(1)).unwrap_err(),
        StatsError::InvalidState
    );
}

#[test]
fn restarting_collection_before_finalize_is_allowed() {
    let mut mem = MemoryStorage::new();
    let mut s = fresh(1, 2);
    s.set_status(&mut mem, RunningStatsStatus::CollectingData).unwrap();
    assert_eq!(s.get_status(&mem).unwrap(), RunningStatsStatus::CollectingData);
}

#[test]
fn scenario_count_then_unaffordable_average_persisted() {
    // epsilon = 1, budget = 2; observations 3, 5, 7
    let mut mem = MemoryStorage::new();
    let mut rng = ChaChaRng::from_seed([3u8; 32]);
    let mut s = fresh(1, 2);
    s.add_observation(&mut mem, Fixed::from_int(3)).unwrap();
    s.add_observation(&mut mem, Fixed::from_int(5)).unwrap();
    s.add_observation(&mut mem, Fixed::from_int(7)).unwrap();
    s.set_status(&mut mem, RunningStatsStatus::CalculatingStats).unwrap();
    assert_eq!(s.get_sum(&mem).unwrap().raw(), 15i64 << 32);
    let fuzzy = s.fuzzy_count(&mut mem, &mut rng).unwrap();
    let value = fuzzy.raw() as f64 / 65536.0;
    assert!((value - 3.0).abs() < 40.0);
    assert_eq!(s.get_privacy_budget(&mem).unwrap().raw(), 1 * 65536);
    // the budget was persisted, not only cached
    let mut t = RunningStatsStore::new(b"stats".to_vec(), None, None, None);
    assert_eq!(t.get_privacy_budget(&mem).unwrap().raw(), 1 * 65536);
    // the two-part AVERAGE cost is checked against the full remaining budget
    assert_eq!(s.fuzzy_average(&mut mem, &mut rng).unwrap_err(), StatsError::BudgetExhausted);
    assert_eq!(s.get_privacy_budget(&mem).unwrap().raw(), 1 * 65536);
}

#[test]
fn scenario_average_within_wide_band_persisted() {
    // epsilon = 1, budget = 3; observations 10, 20
    let mut mem = MemoryStorage::new();
    let mut rng = ChaChaRng::from_seed([4u8; 32]);
    let mut s = fresh(1, 3);
    s.add_observation(&mut mem, Fixed::from_int(10)).unwrap();
    s.add_observation(&mut mem, Fixed::from_int(20)).unwrap();
    s.set_status(&mut mem, RunningStatsStatus::CalculatingStats).unwrap();
    let avg = s.fuzzy_average(&mut mem, &mut rng).unwrap();
    assert_eq!(s.get_privacy_budget(&mem).unwrap().raw(), 1 * 65536);
    let value = avg.raw() as f64 / 65536.0;
    assert!((value - 15.0).abs() < 200.0, "noisy average {value} strays too far");
}

#[test]
fn queries_fail_while_collecting_or_empty() {
    let mut mem = MemoryStorage::new();
    let mut rng = ChaChaRng::from_seed([5u8; 32]);
    let mut s = fresh(1, 5);
    s.add_observation(&mut mem, Fixed::from_int(1)).unwrap();
    assert_eq!(s.fuzzy_count(&mut mem, &mut rng).unwrap_err(), StatsError::InvalidState);
    assert_eq!(s.fuzzy_average(&mut mem, &mut rng).unwrap_err(), StatsError::InvalidState);
}

#[test]
fn clear_resets_count_and_sum() {
    let mut mem = MemoryStorage::new();
    let mut s = fresh(1, 2);
    s.add_observation(&mut mem, Fixed::from_int(4)).unwrap();
    s.clear(&mut mem);
    assert!(s.is_empty(&mem).unwrap());
    assert_eq!(s.get_sum(&mem).unwrap().raw(), 0);
    // the bounds are not part of the cleared data
    assert_eq!(s.get_upper_bound(&mem).unwrap().raw(), 4 * 65536);
}

#[test]
fn malformed_bytes_surface_as_decode_errors() {
    let mut mem = MemoryStorage::new();
    mem.set(&b"statscount".to_vec(), &vec![1, 2, 3]);
    let mut s = RunningStatsStore::new(b"stats".to_vec(), None, None, None);
    assert_eq!(s.is_empty(&mem).unwrap_err(), StatsError::DecodeError);

    let mut mem = MemoryStorage::new();
    mem.set(&b"statsstatus".to_vec(), &vec![2]);
    let mut s = RunningStatsStore::new(b"stats".to_vec(), None, None, None);
    assert_eq!(s.get_status(&mem).unwrap_err(), StatsError::DecodeError);

    let mut mem = MemoryStorage::new();
    mem.set(&b"statsepsilon".to_vec(), &vec![0; 8]);
    let mut s = RunningStatsStore::new(b"stats".to_vec(), None, None, None);
    assert_eq!(s.get_epsilon(&mem).unwrap_err(), StatsError::DecodeError);
}

#[test]
fn well_formed_status_bytes_decode() {
    let mut mem = MemoryStorage::new();
    mem.set(&b"statsstatus".to_vec(), &vec![1]);
    let mut s = RunningStatsStore::new(b"stats".to_vec(), None, None, None);
    assert_eq!(s.get_status(&mem).unwrap(), RunningStatsStatus::CalculatingStats);
    let mut mem = MemoryStorage::new();
    mem.set(&b"statsstatus".to_vec(), &vec![0]);
    let mut s = RunningStatsStore::new(b"stats".to_vec(), None, None, None);
    assert_eq!(s.get_status(&mem).unwrap(), RunningStatsStatus::CollectingData);
}

#[test]
fn suffixed_sessions_are_byte_disjoint() {
    let mut mem = MemoryStorage::new();
    let base = RunningStatsStore::new(b"stats".to_vec(), None, None, None);
    let mut a = base.add_suffix(&b"east".to_vec());
    let mut b = base.add_suffix(&b"west".to_vec());
    a.add_observation(&mut mem, Fixed::from_int(5)).unwrap();
    a.add_observation(&mut mem, Fixed::from_int(6)).unwrap();
    assert!(!a.is_empty(&mem).unwrap());
    // the sibling session under a different suffix sees nothing
    assert!(b.is_empty(&mem).unwrap());
    assert_eq!(b.get_sum(&mem).unwrap().raw(), 0);
    // and the unsuffixed session sees nothing either
    let mut root = RunningStatsStore::new(b"stats".to_vec(), None, None, None);
    assert!(root.is_empty(&mem).unwrap());
    // a second session under the same suffix sees the same data
    let mut a2 = base.add_suffix(&b"east".to_vec());
    assert_eq!(a2.get_sum(&mem).unwrap().raw(), 11i64 << 32);
}

#[test]
fn suffixed_keys_are_length_prefixed() {
    let mut mem = MemoryStorage::new();
    let base = RunningStatsStore::new(b"stats".to_vec(), None, None, None);
    let mut a = base.add_suffix(&b"east".to_vec());
    a.set_epsilon(&mut mem, Fixed::from_int(2));
    // the key is the namespace, a 2-byte big-endian length, the suffix,
    // and the field tag
    let mut key = b"stats".to_vec();
    key.extend_from_slice(&[0, 4]);
    key.extend_from_slice(b"east");
    key.extend_from_slice(b"epsilon");
    let bytes = mem.get(&key).unwrap();
    assert_eq!(bytes, vec![0, 2, 0, 0]);
}

#[test]
fn fuzzy_count_with_zeroed_ln_draws_is_deterministic_about_state() {
    // the overall noisy result depends on the random stream, but two runs
    // over the same seed must agree bit for bit
    let mut mem1 = MemoryStorage::new();
    let mut mem2 = MemoryStorage::new();
    let mut rng1 = ChaChaRng::from_seed([9u8; 32]);
    let mut rng2 = ChaChaRng::from_seed([9u8; 32]);
    let mut s1 = fresh(1, 5);
    let mut s2 = fresh(1, 5);
    for v in [2, 4, 6] {
        s1.add_observation(&mut mem1, Fixed::from_int(v)).unwrap();
        s2.add_observation(&mut mem2, Fixed::from_int(v)).unwrap();
    }
    s1.set_status(&mut mem1, RunningStatsStatus::CalculatingStats).unwrap();
    s2.set_status(&mut mem2, RunningStatsStatus::CalculatingStats).unwrap();
    let r1 = s1.fuzzy_count(&mut mem1, &mut rng1).unwrap();
    let r2 = s2.fuzzy_count(&mut mem2, &mut rng2).unwrap();
    assert_eq!(r1.raw(), r2.raw());
}
