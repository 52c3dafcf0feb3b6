//! Weighted random fragment selection when a loot bundle is opened.

use betting::bundle::{
    bundle_rates, bundle_reward_count, open_bundle, select_fragment_index, SELECTION_MODULUS,
};
use betting::errors::BettingError;

/// The selected index is the smallest whose threshold is at or above the
/// reduced value, checked on both sides of a threshold boundary.
#[test]
fn selection_picks_first_threshold_at_or_above() {
    let table = bundle_rates(0);
    assert_eq!(select_fragment_index(&table, 0), 0);
    assert_eq!(select_fragment_index(&table, 2250), 0);
    assert_eq!(select_fragment_index(&table, 2251), 1);
    assert_eq!(select_fragment_index(&table, 9000), 3);
    assert_eq!(select_fragment_index(&table, 9001), 4);
    assert_eq!(select_fragment_index(&table, 10000), 8);
}

/// A value above every threshold falls back to index 0 defensively.
#[test]
fn selection_falls_back_to_zero() {
    let table = vec![5u32, 7u32];
    assert_eq!(select_fragment_index(&table, 10), 0);
}

#[test]
fn reward_counts_by_variant() {
    assert_eq!(bundle_reward_count(0), 2);
    assert_eq!(bundle_reward_count(1), 5);
    assert_eq!(bundle_reward_count(4), 2);
    assert_eq!(bundle_reward_count(5), 5);
}

/// One draw reduces seed plus time modulo the selection modulus and grants
/// the one-based fragment of the selected index.
#[test]
fn open_bundle_draws_fragments() {
    // seeds chosen so the reduced values land at 2250 and 9001
    let fragments = open_bundle(0, &vec![2250, 9001], 0).unwrap();
    assert_eq!(fragments, vec![1, 5]);

    // the same draw shifted by the time component
    let fragments = open_bundle(0, &vec![2150, 8901], 100).unwrap();
    assert_eq!(fragments, vec![1, 5]);

    // reduction wraps at the modulus
    let fragments = open_bundle(0, &vec![SELECTION_MODULUS, SELECTION_MODULUS + 2250], 0).unwrap();
    assert_eq!(fragments, vec![1, 1]);
}

/// The selection is a pure function of seed, time and table: repeating the
/// call repeats the result.
#[test]
fn open_bundle_is_deterministic() {
    let a = open_bundle(3, &vec![11, 22, 33, 44, 55], 1234).unwrap();
    let b = open_bundle(3, &vec![11, 22, 33, 44, 55], 1234).unwrap();
    assert_eq!(a, b);
    assert_eq!(a.len(), 5);
    for f in a {
        assert!((1..=9).contains(&f));
    }
}

#[test]
fn open_bundle_validates_its_inputs() {
    let err = open_bundle(6, &vec![1, 2, 3, 4, 5], 0).unwrap_err();
    assert_eq!(err, BettingError::InvalidParameter);

    // variant 1 draws five times and needs five seeds
    let err = open_bundle(1, &vec![1, 2], 0).unwrap_err();
    assert_eq!(err, BettingError::InvalidParameter);

    let err = open_bundle(0, &vec![u64::MAX, 1], 1).unwrap_err();
    assert_eq!(err, BettingError::ArithmeticOverflow);
}

/// Richer bundle variants weight rare fragments higher: the same reduced
/// value can select a later fragment under a richer table.
#[test]
fn tables_differ_by_variant() {
    assert_eq!(select_fragment_index(&bundle_rates(0), 2000), 0);
    assert_eq!(select_fragment_index(&bundle_rates(2), 2000), 1);
    assert_eq!(select_fragment_index(&bundle_rates(4), 2000), 2);
}
