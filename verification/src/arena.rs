//! The arena lifecycle engine.
//!
//! One arena moves `Opened -> Started -> (EndSuccess | EndRatioBelow)`, with
//! `Cancelled` reachable from `Opened` and `Started` by administrative
//! action. Settlement and claims only decide amounts; the host executes the
//! transfers they return.

use vstd::prelude::*;

use crate::errors::BettingError;
use crate::fees::{
    compute_settlement, compute_winner_payout, spec_pool, spec_ratio_below,
    spec_real_platform_fee, spec_user_net_reward, spec_user_ref_fee, spec_user_reward,
    SettlementDecision, WinnerPayout,
};
use crate::states::{ArenaState, ArenaStatus, BetSide, GlobalState, UserBetState, UserState};

verus! {

/// Creates a fresh arena holding no wagers, open for betting.
pub fn open_arena(arena_id: u64) -> (r: ArenaState)
    ensures
        r == (ArenaState {
            arena_id,
            locked_price: 0,
            start_timestamp: 0,
            duration: 0,
            status: ArenaStatus::Opened,
            up_amount: 0,
            up_count: 0,
            down_amount: 0,
            down_count: 0,
            final_price: 0,
            end_timestamp: 0,
            bet_result: BetSide::Down,
        }),
{
    ArenaState {
        arena_id,
        locked_price: 0,
        start_timestamp: 0,
        duration: 0,
        status: ArenaStatus::Opened,
        up_amount: 0,
        up_count: 0,
        down_amount: 0,
        down_count: 0,
        final_price: 0,
        end_timestamp: 0,
        bet_result: BetSide::Down,
    }
}

/// Locks the reference price and closes the arena to new wagers.
pub fn start_arena(global: &GlobalState, arena: &mut ArenaState, price: u64, now: u64) -> (r:
    Result<(), BettingError>)
    ensures
        r is Err <==> !(old(arena).status is Opened),
        r is Err ==> r->Err_0 == BettingError::ArenaNotOpened && *final(arena) == *old(arena),
        r is Ok ==> *final(arena) == (ArenaState {
            locked_price: price,
            start_timestamp: now,
            duration: global.arena_duration,
            status: ArenaStatus::Started,
            ..*old(arena)
        }),
{
    if !(arena.status == ArenaStatus::Opened) {
        return Err(BettingError::ArenaNotOpened);
    }
    arena.locked_price = price;
    arena.start_timestamp = now;
    arena.duration = global.arena_duration;
    arena.status = ArenaStatus::Started;
    Ok(())
}

/// Cancels an arena that has not settled, recording a final price for audit.
/// No funds move here; each bettor reclaims their stake via `return_bet`.
pub fn cancel_arena(arena: &mut ArenaState, price: u64, now: u64) -> (r: Result<
    (),
    BettingError,
>)
    ensures
        r is Err <==> !(old(arena).status is Opened || old(arena).status is Started),
        r is Err ==> r->Err_0 == BettingError::FinishedArena && *final(arena) == *old(arena),
        r is Ok ==> *final(arena) == (ArenaState {
            final_price: price,
            end_timestamp: now,
            status: ArenaStatus::Cancelled,
            ..*old(arena)
        }),
{
    match arena.status {
        ArenaStatus::Opened => {},
        ArenaStatus::Started => {},
        _ => {
            return Err(BettingError::FinishedArena);
        },
    }
    arena.final_price = price;
    arena.end_timestamp = now;
    arena.status = ArenaStatus::Cancelled;
    Ok(())
}

/// The winning side a settlement price dictates: ties favor `Up`.
pub open spec fn spec_settle_side(locked_price: u64, final_price: u64) -> BetSide {
    if final_price >= locked_price {
        BetSide::Up
    } else {
        BetSide::Down
    }
}

/// How `end_arena` decides, given the arena as it stood before the call.
pub open spec fn spec_settle_outcome(global: GlobalState, arena: ArenaState, final_price: u64) -> Result<
    SettlementDecision,
    BettingError,
> {
    let pool = spec_pool(arena.up_amount as int, arena.down_amount as int);
    let side = spec_settle_side(arena.locked_price, final_price);
    let winning: int = if side is Up {
        arena.up_amount as int
    } else {
        arena.down_amount as int
    };
    let losing: int = if side is Up {
        arena.down_amount as int
    } else {
        arena.up_amount as int
    };
    if !(arena.status is Started) {
        Err(BettingError::ArenaNotStarted)
    } else if arena.up_amount == 0 || arena.down_amount == 0 {
        Err(BettingError::ArenaFailed)
    } else if pool > u64::MAX {
        Err(BettingError::ArithmeticOverflow)
    } else if spec_ratio_below(pool, global.platform_fee_rate as int, winning) {
        Ok(SettlementDecision::RatioBelow { to_treasury: losing as u64 })
    } else {
        Ok(
            SettlementDecision::Success {
                to_treasury: spec_real_platform_fee(
                    pool,
                    global.platform_fee_rate as int,
                    global.referral_fee_rate as int,
                ) as u64,
            },
        )
    }
}

/// Settles a started arena against the supplied final price and says what
/// the treasury receives. A one-sided market cannot settle; it can only be
/// cancelled. On any error the arena is left untouched.
pub fn end_arena(global: &GlobalState, arena: &mut ArenaState, final_price: u64, now: u64) -> (r:
    Result<SettlementDecision, BettingError>)
    requires
        global.wf(),
    ensures
        r == spec_settle_outcome(*global, *old(arena), final_price),
        r is Err ==> *final(arena) == *old(arena),
        r is Ok ==> *final(arena) == (ArenaState {
            final_price,
            end_timestamp: now,
            bet_result: spec_settle_side(old(arena).locked_price, final_price),
            status: (if r->Ok_0 is RatioBelow {
                ArenaStatus::EndRatioBelow
            } else {
                ArenaStatus::EndSuccess
            }),
            ..*old(arena)
        }),
{
    if !(arena.status == ArenaStatus::Started) {
        return Err(BettingError::ArenaNotStarted);
    }
    if arena.up_amount == 0 || arena.down_amount == 0 {
        return Err(BettingError::ArenaFailed);
    }
    let side = if final_price >= arena.locked_price {
        BetSide::Up
    } else {
        BetSide::Down
    };
    let decision = compute_settlement(
        arena.up_amount,
        arena.down_amount,
        global.platform_fee_rate,
        global.referral_fee_rate,
        side,
    )?;
    arena.final_price = final_price;
    arena.end_timestamp = now;
    arena.bet_result = side;
    arena.status = match decision {
        SettlementDecision::RatioBelow { .. } => ArenaStatus::EndRatioBelow,
        SettlementDecision::Success { .. } => ArenaStatus::EndSuccess,
    };
    Ok(decision)
}

/// How `claim_reward` decides, given the records as they stood before the
/// call.
pub open spec fn spec_claim_outcome(
    global: GlobalState,
    arena: ArenaState,
    bet: UserBetState,
    referrer_reward: u64,
) -> Result<WinnerPayout, BettingError> {
    let pool = spec_pool(arena.up_amount as int, arena.down_amount as int);
    let winning = arena.winning_amount() as int;
    let prate = global.platform_fee_rate as int;
    let rrate = global.referral_fee_rate as int;
    if !(arena.status is EndSuccess || arena.status is EndRatioBelow) {
        Err(BettingError::ArenaNotFinished)
    } else if bet.side != arena.bet_result {
        Err(BettingError::BetResultMisMatch)
    } else if bet.is_claimed {
        Err(BettingError::AlreadyClaimed)
    } else if arena.status is EndRatioBelow {
        Ok(WinnerPayout { to_winner: bet.bet_amount, to_referrer: 0 })
    } else if pool > u64::MAX {
        Err(BettingError::ArithmeticOverflow)
    } else if winning == 0 {
        Err(BettingError::ArenaFailed)
    } else if spec_user_reward(pool, bet.bet_amount as int, winning) > u64::MAX {
        Err(BettingError::ArithmeticOverflow)
    } else if referrer_reward + spec_user_ref_fee(pool, bet.bet_amount as int, winning, prate, rrate)
        > u64::MAX {
        Err(BettingError::ArithmeticOverflow)
    } else {
        Ok(
            WinnerPayout {
                to_winner: spec_user_net_reward(pool, bet.bet_amount as int, winning, prate) as u64,
                to_referrer: spec_user_ref_fee(pool, bet.bet_amount as int, winning, prate, rrate)
                    as u64,
            },
        )
    }
}

/// Pays one winning bet exactly once.
///
/// On the ratio-below branch the winner receives exactly their stake back and
/// no referral fee is credited. On the success branch the winner receives
/// their net share of the pool and their referrer's pending reward grows by
/// the referral fee. A claim on an already-claimed bet, or on a bet that did
/// not win, fails and moves nothing.
pub fn claim_reward(
    global: &GlobalState,
    arena: &ArenaState,
    bet: &mut UserBetState,
    referrer_state: &mut UserState,
) -> (r: Result<WinnerPayout, BettingError>)
    requires
        global.wf(),
    ensures
        r == spec_claim_outcome(*global, *arena, *old(bet), old(referrer_state).ref_reward),
        r is Err ==> *final(bet) == *old(bet) && *final(referrer_state) == *old(referrer_state),
        r is Ok ==> *final(bet) == (UserBetState { is_claimed: true, ..*old(bet) }),
        r is Ok ==> *final(referrer_state) == (UserState {
            ref_reward: (old(referrer_state).ref_reward + r->Ok_0.to_referrer) as u64,
            ..*old(referrer_state)
        }),
{
    let settled = arena.status == ArenaStatus::EndSuccess || arena.status
        == ArenaStatus::EndRatioBelow;
    if !settled {
        return Err(BettingError::ArenaNotFinished);
    }
    if !(bet.side == arena.bet_result) {
        return Err(BettingError::BetResultMisMatch);
    }
    if bet.is_claimed {
        return Err(BettingError::AlreadyClaimed);
    }
    if arena.status == ArenaStatus::EndRatioBelow {
        bet.is_claimed = true;
        return Ok(WinnerPayout { to_winner: bet.bet_amount, to_referrer: 0 });
    }
    let pool = match arena.up_amount.checked_add(arena.down_amount) {
        Some(p) => p,
        None => {
            return Err(BettingError::ArithmeticOverflow);
        },
    };
    let winning_amount = match arena.bet_result {
        BetSide::Up => arena.up_amount,
        BetSide::Down => arena.down_amount,
    };
    if winning_amount == 0 {
        return Err(BettingError::ArenaFailed);
    }
    let payout = compute_winner_payout(
        pool,
        winning_amount,
        bet.bet_amount,
        global.platform_fee_rate,
        global.referral_fee_rate,
    )?;
    let new_ref_reward = match referrer_state.ref_reward.checked_add(payout.to_referrer) {
        Some(v) => v,
        None => {
            return Err(BettingError::ArithmeticOverflow);
        },
    };
    referrer_state.ref_reward = new_ref_reward;
    bet.is_claimed = true;
    Ok(payout)
}

/// LAW. A claim against an already-claimed bet record never pays: whatever
/// state the arena and the configuration are in, the outcome is an error,
/// and `claim_reward`'s contract then leaves every record untouched.
/// Together with a successful claim setting the claimed flag, the same bet
/// record can be paid at most once.
pub proof fn law_claim_is_exactly_once(
    global: GlobalState,
    arena: ArenaState,
    bet: UserBetState,
    referrer_reward: u64,
)
    requires
        bet.is_claimed,
    ensures
        spec_claim_outcome(global, arena, bet, referrer_reward) is Err,
{
}

/// Refunds one bet of a cancelled arena exactly once, returning the amount
/// the host must send back to the bettor.
pub fn return_bet(arena: &ArenaState, bet: &mut UserBetState) -> (r: Result<u64, BettingError>)
    ensures
        !(arena.status is Cancelled) ==> r == Err::<u64, BettingError>(
            BettingError::ArenaNotCancelled,
        ),
        arena.status is Cancelled && old(bet).is_claimed ==> r == Err::<u64, BettingError>(
            BettingError::AlreadyClaimed,
        ),
        arena.status is Cancelled && !old(bet).is_claimed ==> r == Ok::<u64, BettingError>(
            old(bet).bet_amount,
        ),
        r is Err ==> *final(bet) == *old(bet),
        r is Ok ==> *final(bet) == (UserBetState { is_claimed: true, ..*old(bet) }),
{
    if !(arena.status == ArenaStatus::Cancelled) {
        return Err(BettingError::ArenaNotCancelled);
    }
    if bet.is_claimed {
        return Err(BettingError::AlreadyClaimed);
    }
    bet.is_claimed = true;
    Ok(bet.bet_amount)
}

} // verus!
