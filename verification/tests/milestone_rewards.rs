//! Milestone (eight-box) claims and the claimed bitmask.

use betting::errors::BettingError;
use betting::milestone::{claim_eight_box, eight_box_limit};
use betting::states::EightBoxState;

fn bucket(stake: u64) -> EightBoxState {
    EightBoxState { user: [1u8; 32], start_time: 0, bet_amount: stake, claimed_status: 0 }
}

#[test]
fn thresholds_ascend() {
    assert_eq!(eight_box_limit(0), 20_000_000);
    assert_eq!(eight_box_limit(1), 100_000_000);
    assert_eq!(eight_box_limit(2), 400_000_000);
    assert_eq!(eight_box_limit(3), 1_000_000_000);
}

/// Tiers are independent: tier 2 then tier 0 both succeed, each setting its
/// own bit; repeating tier 0 fails.
#[test]
fn tiers_claim_independently_and_once() {
    let mut state = bucket(400_000_000);
    assert_eq!(claim_eight_box(&mut state, 2).unwrap(), 4);
    assert_eq!(state.claimed_status, 0b100);

    assert_eq!(claim_eight_box(&mut state, 0).unwrap(), 0);
    assert_eq!(state.claimed_status, 0b101);

    let err = claim_eight_box(&mut state, 0).unwrap_err();
    assert_eq!(err, BettingError::AlreadyClaimed);
    assert_eq!(state.claimed_status, 0b101);

    // tier 1 is still open, and claiming it keeps the earlier bits
    assert_eq!(claim_eight_box(&mut state, 1).unwrap(), 3);
    assert_eq!(state.claimed_status, 0b111);
}

#[test]
fn tier_needs_its_own_threshold() {
    let mut state = bucket(150_000_000);
    assert_eq!(claim_eight_box(&mut state, 0).unwrap(), 0);
    assert_eq!(claim_eight_box(&mut state, 1).unwrap(), 3);
    let err = claim_eight_box(&mut state, 2).unwrap_err();
    assert_eq!(err, BettingError::UnableToClaim);
    let err = claim_eight_box(&mut state, 3).unwrap_err();
    assert_eq!(err, BettingError::UnableToClaim);
    assert_eq!(state.claimed_status, 0b011);
}

#[test]
fn tier_out_of_range_is_refused() {
    let mut state = bucket(u64::MAX);
    let err = claim_eight_box(&mut state, 4).unwrap_err();
    assert_eq!(err, BettingError::InvalidParameter);
    assert_eq!(state.claimed_status, 0);
}

#[test]
fn top_tier_grants_the_richest_bundle() {
    let mut state = bucket(1_000_000_000);
    assert_eq!(claim_eight_box(&mut state, 3).unwrap(), 5);
    assert_eq!(state.claimed_status, 0b1000);
}
