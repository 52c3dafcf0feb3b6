//! Configuration, record constructors and referral reward draining.

use betting::errors::BettingError;
use betting::referral::claim_referral_reward;
use betting::states::{
    identity_eq, init_day_state, init_eight_box_state, init_hour_state, init_user_state,
    init_week_state, initialize,
};
use betting::{INITIAL_PLATFORM_FEE_RATE, INITIAL_REF_FEE_RATE};

#[test]
fn initialize_installs_the_configured_rates() {
    let g = initialize(&None, &[9u8; 32], [1u8; 32], [2u8; 32], [3u8; 32], [4u8; 32], 600)
        .unwrap();
    assert!(g.is_initialized);
    assert_eq!(g.authority, [1u8; 32]);
    assert_eq!(g.treasury, [2u8; 32]);
    assert_eq!(g.token_mint, [3u8; 32]);
    assert_eq!(g.rank_mint, [4u8; 32]);
    assert_eq!(g.arena_duration, 600);
    assert_eq!(g.platform_fee_rate, INITIAL_PLATFORM_FEE_RATE);
    assert_eq!(g.referral_fee_rate, INITIAL_REF_FEE_RATE);
}

#[test]
fn reinitialize_is_authority_gated() {
    let g = initialize(&None, &[9u8; 32], [1u8; 32], [2u8; 32], [3u8; 32], [4u8; 32], 600)
        .unwrap();
    let prev = Some(g);
    let err = initialize(&prev, &[7u8; 32], [7u8; 32], [2u8; 32], [3u8; 32], [4u8; 32], 600)
        .unwrap_err();
    assert_eq!(err, BettingError::NotAllowedAuthority);

    // the configured administrator may overwrite
    let g2 = initialize(&prev, &[1u8; 32], [7u8; 32], [2u8; 32], [3u8; 32], [4u8; 32], 900)
        .unwrap();
    assert_eq!(g2.authority, [7u8; 32]);
    assert_eq!(g2.arena_duration, 900);
}

#[test]
fn epoch_ledgers_align_to_their_windows() {
    let user = [5u8; 32];
    assert_eq!(init_hour_state(user, 3).unwrap().start_time, 3 * 3600);
    assert_eq!(init_day_state(user, 2).unwrap().start_time, 2 * 86400);
    assert_eq!(init_week_state(user, 1).unwrap().start_time, 604800);
    assert_eq!(init_eight_box_state(user, 4).unwrap().start_time, 4 * 28800);

    assert_eq!(
        init_hour_state(user, u64::MAX).unwrap_err(),
        BettingError::ArithmeticOverflow
    );
    assert_eq!(
        init_week_state(user, u64::MAX / 2).unwrap_err(),
        BettingError::ArithmeticOverflow
    );
}

#[test]
fn fresh_records_start_empty() {
    let user = [5u8; 32];
    let profile = init_user_state(user);
    assert_eq!(profile.user, user);
    assert!(!profile.is_ref_inited);
    assert_eq!(profile.ref_reward, 0);

    let hour = init_hour_state(user, 3).unwrap();
    assert_eq!(hour.bet_amount, 0);
    assert!(!hour.is_claimed);

    let bucket = init_eight_box_state(user, 0).unwrap();
    assert_eq!(bucket.bet_amount, 0);
    assert_eq!(bucket.claimed_status, 0);
}

#[test]
fn identity_comparison_is_bytewise() {
    let a = [5u8; 32];
    let mut b = a;
    assert!(identity_eq(&a, &b));
    b[31] = 6;
    assert!(!identity_eq(&a, &b));
}

/// Draining the referral vault pays out its whole balance and resets the
/// pending counter.
#[test]
fn referral_claim_drains_the_vault() {
    let mut profile = init_user_state([5u8; 32]);
    profile.ref_reward = 123;
    let paid = claim_referral_reward(&mut profile, 456);
    assert_eq!(paid, 456);
    assert_eq!(profile.ref_reward, 0);
}
