//! Rank lookup and the hour/day/week ranking reward claims.

use betting::errors::BettingError;
use betting::ranking::{
    claim_day_rank_reward, claim_hour_rank_reward, claim_week_rank_reward, end_day, end_hour,
    end_week, get_day_rank, get_hour_rank, get_week_rank, rank_position, CollectibleUnlock,
};
use betting::states::{DayState, HourState, WeekState};

fn hour_state(stake: u64) -> HourState {
    HourState { user: [1u8; 32], start_time: 3600, bet_amount: stake, is_claimed: false }
}

fn day_state(stake: u64) -> DayState {
    DayState { user: [1u8; 32], start_time: 0, bet_amount: stake, is_claimed: false }
}

fn week_state(stake: u64) -> WeekState {
    WeekState { user: [1u8; 32], start_time: 0, bet_amount: stake, is_claimed: false }
}

/// Rank resolution picks the first threshold the stake meets; a stake below
/// every threshold resolves to no rank at all.
#[test]
fn rank_lookup_first_match() {
    let tiers = vec![1000, 500, 100];
    assert_eq!(rank_position(&tiers, 700), Some(1));
    assert_eq!(rank_position(&tiers, 1000), Some(0));
    assert_eq!(rank_position(&tiers, 100), Some(2));
    assert_eq!(rank_position(&tiers, 50), None);
}

/// A stake of 700 against descending tiers resolves to position 1 and its
/// reward; a stake of 50 fails the qualifying check entirely.
#[test]
fn hour_claim_resolves_tier() {
    let result = end_hour(1, vec![1000, 500, 100, 50, 10], vec![900, 700, 500, 300, 100]);
    let mut state = hour_state(700);
    let claim = claim_hour_rank_reward(&mut state, &result).unwrap();
    assert_eq!(claim.position, 1);
    assert_eq!(claim.reward_amount, 700);
    assert!(claim.unlock == CollectibleUnlock::NoBonus);
    assert!(state.is_claimed);

    let mut low = hour_state(5);
    let err = claim_hour_rank_reward(&mut low, &result).unwrap_err();
    assert_eq!(err, BettingError::UnableToClaim);
    assert!(!low.is_claimed);
}

#[test]
fn hour_claim_is_exactly_once() {
    let result = end_hour(1, vec![1000, 500, 100, 50, 10], vec![900, 700, 500, 300, 100]);
    let mut state = hour_state(700);
    claim_hour_rank_reward(&mut state, &result).unwrap();
    let err = claim_hour_rank_reward(&mut state, &result).unwrap_err();
    assert_eq!(err, BettingError::AlreadyClaimed);
}

/// An unpublished epoch (a zeroed result) rejects every claim: the stake
/// must reach the last threshold, and the zeroed record pays nothing anyway.
#[test]
fn unpublished_epoch_rejects_claims() {
    let result = end_hour(0, vec![0, 0, 0, 0, 0], vec![0, 0, 0, 0, 0]);
    let mut state = hour_state(700);
    // a zeroed tier table technically qualifies everyone at position 0...
    let claim = claim_hour_rank_reward(&mut state, &result).unwrap();
    // ...but pays the zeroed reward
    assert_eq!(claim.reward_amount, 0);
}

#[test]
fn top_positions_unlock_collectibles() {
    let hour_result = end_hour(1, vec![1000, 500, 100, 50, 10], vec![9, 7, 5, 3, 1]);
    let mut top = hour_state(2000);
    let claim = claim_hour_rank_reward(&mut top, &hour_result).unwrap();
    assert_eq!(claim.position, 0);
    assert!(claim.unlock == CollectibleUnlock::Bundle(0));

    let day_result = end_day(
        2,
        vec![7000, 6000, 5000, 4000, 3000, 2000, 1000],
        vec![70, 60, 50, 40, 30, 20, 10],
    );
    let mut top = day_state(9000);
    let claim = claim_day_rank_reward(&mut top, &day_result).unwrap();
    assert_eq!(claim.position, 0);
    assert!(claim.unlock == CollectibleUnlock::Bundle(4));

    let week_result = end_week(
        3,
        vec![9000, 8000, 7000, 6000, 5000, 4000, 3000, 2000, 1000],
        vec![90, 80, 70, 60, 50, 40, 30, 20, 10],
    );
    let mut top = week_state(9500);
    let claim = claim_week_rank_reward(&mut top, &week_result).unwrap();
    assert_eq!(claim.position, 0);
    assert!(claim.unlock == CollectibleUnlock::TopCollectible);

    let mut second = week_state(8500);
    let claim = claim_week_rank_reward(&mut second, &week_result).unwrap();
    assert_eq!(claim.position, 1);
    assert!(claim.unlock == CollectibleUnlock::Bundle(4));
    assert_eq!(claim.reward_amount, 80);

    let mut fourth = week_state(6500);
    let claim = claim_week_rank_reward(&mut fourth, &week_result).unwrap();
    assert_eq!(claim.position, 3);
    assert!(claim.unlock == CollectibleUnlock::NoBonus);
}

/// The rank views report position + 1, and report 1 as well for a stake
/// qualifying for no tier, since their fallback position is 0.
#[test]
fn rank_views_are_one_based() {
    let hour_result = end_hour(1, vec![1000, 500, 100, 50, 10], vec![9, 7, 5, 3, 1]);
    assert_eq!(get_hour_rank(&hour_state(700), &hour_result), 2);
    assert_eq!(get_hour_rank(&hour_state(2000), &hour_result), 1);
    assert_eq!(get_hour_rank(&hour_state(5), &hour_result), 1);

    let day_result = end_day(
        2,
        vec![7000, 6000, 5000, 4000, 3000, 2000, 1000],
        vec![70, 60, 50, 40, 30, 20, 10],
    );
    assert_eq!(get_day_rank(&day_state(1500), &day_result), 7);

    let week_result = end_week(
        3,
        vec![9000, 8000, 7000, 6000, 5000, 4000, 3000, 2000, 1000],
        vec![90, 80, 70, 60, 50, 40, 30, 20, 10],
    );
    assert_eq!(get_week_rank(&week_state(1000), &week_result), 9);
}

#[test]
fn day_and_week_claims_are_exactly_once() {
    let day_result = end_day(
        2,
        vec![7000, 6000, 5000, 4000, 3000, 2000, 1000],
        vec![70, 60, 50, 40, 30, 20, 10],
    );
    let mut state = day_state(6500);
    let claim = claim_day_rank_reward(&mut state, &day_result).unwrap();
    assert_eq!(claim.position, 1);
    assert_eq!(claim.reward_amount, 60);
    let err = claim_day_rank_reward(&mut state, &day_result).unwrap_err();
    assert_eq!(err, BettingError::AlreadyClaimed);

    let week_result = end_week(
        3,
        vec![9000, 8000, 7000, 6000, 5000, 4000, 3000, 2000, 1000],
        vec![90, 80, 70, 60, 50, 40, 30, 20, 10],
    );
    let mut state = week_state(500);
    let err = claim_week_rank_reward(&mut state, &week_result).unwrap_err();
    assert_eq!(err, BettingError::UnableToClaim);
}
