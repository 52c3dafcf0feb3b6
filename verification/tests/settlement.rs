//! Settlement and fee computation, end to end.

use betting::arena::{claim_reward, end_arena, open_arena, start_arena};
use betting::errors::BettingError;
use betting::fees::{compute_settlement, compute_winner_payout, SettlementDecision};
use betting::states::{
    init_user_state, initialize, ArenaState, ArenaStatus, BetSide, GlobalState,
};
use betting::wager::user_bet;

fn test_global() -> GlobalState {
    initialize(&None, &[9u8; 32], [1u8; 32], [2u8; 32], [3u8; 32], [4u8; 32], 600).unwrap()
}

fn ref_proof(user: &[u8; 32], referrer: &[u8; 32]) -> [u8; 32] {
    let user_str = solana_program::pubkey::Pubkey::new_from_array(*user).to_string();
    let ref_str = solana_program::pubkey::Pubkey::new_from_array(*referrer).to_string();
    let data = user_str + ref_str.as_str() + "R3fareur";
    solana_program::hash::hash(data.as_bytes()).to_bytes()
}

/// The full success scenario: two bettors stake 300 up and 100 down, the
/// price moves up, the pool of 400 settles with a 10% fee, and the up
/// bettor's claim nets 360 with 4 credited to their referrer.
#[test]
fn end_to_end_success_scenario() {
    let global = test_global();
    let mut arena = open_arena(1);
    assert!(arena.status == ArenaStatus::Opened);

    // the up bettor goes through the full wager intake while the arena is
    // still open
    let up_user = [11u8; 32];
    let referrer = [22u8; 32];
    let mut up_profile = init_user_state(up_user);
    let mut up_slot = None;
    let mut eight_box = betting::states::init_eight_box_state(up_user, 0).unwrap();
    let mut hour = betting::states::init_hour_state(up_user, 1).unwrap();
    let mut day = betting::states::init_day_state(up_user, 0).unwrap();
    let mut week = betting::states::init_week_state(up_user, 0).unwrap();
    // the arena was started at a different clock than the epochs; pick a
    // time inside all four windows
    let now = 3600;
    user_bet(
        &mut arena,
        &mut up_profile,
        &mut up_slot,
        &mut eight_box,
        &mut hour,
        &mut day,
        &mut week,
        &up_user,
        300,
        BetSide::Up,
        &referrer,
        &ref_proof(&up_user, &referrer),
        now,
    )
    .unwrap();
    assert_eq!(arena.up_amount, 300);
    assert_eq!(arena.up_count, 1);

    // the down stake arrives the same way from another bettor
    let down_user = [33u8; 32];
    let mut down_profile = init_user_state(down_user);
    let mut down_slot = None;
    let mut down_box = betting::states::init_eight_box_state(down_user, 0).unwrap();
    let mut down_hour = betting::states::init_hour_state(down_user, 1).unwrap();
    let mut down_day = betting::states::init_day_state(down_user, 0).unwrap();
    let mut down_week = betting::states::init_week_state(down_user, 0).unwrap();
    user_bet(
        &mut arena,
        &mut down_profile,
        &mut down_slot,
        &mut down_box,
        &mut down_hour,
        &mut down_day,
        &mut down_week,
        &down_user,
        100,
        BetSide::Down,
        &referrer,
        &ref_proof(&down_user, &referrer),
        now,
    )
    .unwrap();
    assert_eq!(arena.down_amount, 100);
    assert_eq!(arena.down_count, 1);

    // the administrator locks the price; wagers are closed from here on
    start_arena(&global, &mut arena, 100, 3650).unwrap();
    assert!(arena.status == ArenaStatus::Started);
    assert_eq!(arena.locked_price, 100);
    assert_eq!(arena.duration, 600);

    // pool = 400, fee = 40, expected reward 360 >= 300: success; the
    // treasury receives the fee minus the 10% referral provision
    let decision = end_arena(&global, &mut arena, 110, 700).unwrap();
    assert!(arena.status == ArenaStatus::EndSuccess);
    assert!(arena.bet_result == BetSide::Up);
    assert_eq!(arena.final_price, 110);
    match decision {
        SettlementDecision::Success { to_treasury } => assert_eq!(to_treasury, 36),
        _ => panic!("expected a success settlement"),
    }

    // the up bettor claims: gross 400, fee 40, net 360, referrer credited 4
    let mut bet = up_slot.unwrap();
    let mut ref_profile = init_user_state(referrer);
    let payout = claim_reward(&global, &arena, &mut bet, &mut ref_profile).unwrap();
    assert_eq!(payout.to_winner, 360);
    assert_eq!(payout.to_referrer, 4);
    assert!(bet.is_claimed);
    assert_eq!(ref_profile.ref_reward, 4);

    // claiming again fails and moves nothing
    let err = claim_reward(&global, &arena, &mut bet, &mut ref_profile).unwrap_err();
    assert_eq!(err, BettingError::AlreadyClaimed);
    assert_eq!(ref_profile.ref_reward, 4);
}

/// A pool where the fee would eat into principal settles ratio-below: the
/// whole losing pool goes to the treasury and the winner gets exactly their
/// stake back.
#[test]
fn ratio_below_refunds_principal() {
    let global = test_global();
    // pool = 310, fee = 31, expected reward 279 < 300: ratio below
    let mut arena = ArenaState {
        arena_id: 2,
        locked_price: 100,
        start_timestamp: 50,
        duration: 600,
        status: ArenaStatus::Started,
        up_amount: 300,
        up_count: 1,
        down_amount: 10,
        down_count: 1,
        final_price: 0,
        end_timestamp: 0,
        bet_result: BetSide::Down,
    };
    let decision = end_arena(&global, &mut arena, 150, 700).unwrap();
    assert!(arena.status == ArenaStatus::EndRatioBelow);
    match decision {
        SettlementDecision::RatioBelow { to_treasury } => assert_eq!(to_treasury, 10),
        _ => panic!("expected a ratio-below settlement"),
    }

    let mut bet = betting::states::UserBetState {
        user: [11u8; 32],
        bet_timestamp: 60,
        arena_id: 2,
        bet_amount: 300,
        side: BetSide::Up,
        is_claimed: false,
    };
    let mut ref_profile = init_user_state([22u8; 32]);
    let payout = claim_reward(&global, &arena, &mut bet, &mut ref_profile).unwrap();
    assert_eq!(payout.to_winner, 300);
    assert_eq!(payout.to_referrer, 0);
    assert_eq!(ref_profile.ref_reward, 0);
    assert!(bet.is_claimed);
}

/// The exact fee arithmetic of the calculator, on the scenario numbers.
#[test]
fn winner_payout_exact_values() {
    let p = compute_winner_payout(400, 300, 300, 1000, 1000).unwrap();
    assert_eq!(p.to_winner, 360);
    assert_eq!(p.to_referrer, 4);

    // all divisions floor: gross 21*6/7 = 18, fee 1, referral 0
    let p = compute_winner_payout(21, 7, 6, 1000, 1000).unwrap();
    assert_eq!(p.to_winner, 17);
    assert_eq!(p.to_referrer, 0);
}

/// A pool past the machine word fails settlement rather than wrap.
#[test]
fn settlement_pool_overflow_fails() {
    let r = compute_settlement(u64::MAX, 1, 1000, 1000, BetSide::Up);
    assert_eq!(r.unwrap_err(), BettingError::ArithmeticOverflow);

    let global = test_global();
    let mut arena = ArenaState {
        arena_id: 3,
        locked_price: 100,
        start_timestamp: 50,
        duration: 600,
        status: ArenaStatus::Started,
        up_amount: u64::MAX,
        up_count: 1,
        down_amount: 1,
        down_count: 1,
        final_price: 0,
        end_timestamp: 0,
        bet_result: BetSide::Down,
    };
    let err = end_arena(&global, &mut arena, 150, 700).unwrap_err();
    assert_eq!(err, BettingError::ArithmeticOverflow);
    // the arena is untouched
    assert!(arena.status == ArenaStatus::Started);
    assert_eq!(arena.final_price, 0);
}

/// Across a whole settlement the payouts stay within the pool up to less
/// than one unit of flooring slack per winning bet. With winning stakes 1
/// and 6 against a pool of 21 the flooring overshoots by exactly that one
/// unit: every transfer summed reaches pool + 1, and the host's escrow is
/// what bounds the last claim.
#[test]
fn settlement_conservation_bound() {
    let mut global = test_global();
    global.referral_fee_rate = 0;
    // up 7 wins against down 14: pool 21, fee 2, expected 19 >= 7
    let mut arena = ArenaState {
        arena_id: 4,
        locked_price: 100,
        start_timestamp: 50,
        duration: 600,
        status: ArenaStatus::Started,
        up_amount: 7,
        up_count: 2,
        down_amount: 14,
        down_count: 1,
        final_price: 0,
        end_timestamp: 0,
        bet_result: BetSide::Down,
    };
    let decision = end_arena(&global, &mut arena, 150, 700).unwrap();
    let to_treasury = match decision {
        SettlementDecision::Success { to_treasury } => to_treasury,
        _ => panic!("expected a success settlement"),
    };
    assert_eq!(to_treasury, 2);

    let mut total_out = to_treasury;
    let mut ref_profile = init_user_state([22u8; 32]);
    for (i, stake) in [1u64, 6u64].iter().enumerate() {
        let mut bet = betting::states::UserBetState {
            user: [i as u8; 32],
            bet_timestamp: 60,
            arena_id: 4,
            bet_amount: *stake,
            side: BetSide::Up,
            is_claimed: false,
        };
        let payout = claim_reward(&global, &arena, &mut bet, &mut ref_profile).unwrap();
        total_out += payout.to_winner + payout.to_referrer;
    }
    // gross shares floor to 3 and 18; per-claim fees floor to 0 and 1
    assert_eq!(total_out, 2 + 3 + 17);
    let pool = 21u64;
    let winning_bets = 2u64;
    assert!(total_out < pool + winning_bets);
    assert_eq!(total_out, pool + 1);
}
