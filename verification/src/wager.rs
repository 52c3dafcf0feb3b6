//! Wager intake and accrual.
//!
//! One call records a bet into the arena pool and fans the stake out into
//! the three epoch ledgers and the milestone bucket. All five mutations and
//! the referrer binding commit together or not at all: every check runs
//! before the first write.

use vstd::prelude::*;

use crate::errors::BettingError;
use crate::referral::{assert_ref_hash, spec_ref_hash};
use crate::states::{
    identity_eq, ArenaState, BetSide, DayState, EightBoxState, HourState, Identity, UserBetState,
    UserState, WeekState,
};
use crate::{ONE_DAY, ONE_HOUR, ONE_WEEK};

verus! {

/// Whether `now` falls within the window of length `len` starting at
/// `start`, both ends included.
pub open spec fn spec_in_window(start: u64, len: u64, now: u64) -> bool {
    start <= now <= start + len
}

/// Whether recording `bet_amount` would push any of the six accrual
/// counters past the machine word.
pub open spec fn spec_accrual_overflow(
    arena: ArenaState,
    eight_box: EightBoxState,
    hour: HourState,
    day: DayState,
    week: WeekState,
    side: BetSide,
    bet_amount: u64,
) -> bool {
    ||| (side is Up && (arena.up_amount + bet_amount > u64::MAX || arena.up_count + 1 > u64::MAX))
    ||| (side is Down && (arena.down_amount + bet_amount > u64::MAX || arena.down_count + 1
        > u64::MAX))
    ||| eight_box.bet_amount + bet_amount > u64::MAX
    ||| hour.bet_amount + bet_amount > u64::MAX
    ||| day.bet_amount + bet_amount > u64::MAX
    ||| week.bet_amount + bet_amount > u64::MAX
}

/// Why `user_bet` refuses, if it does, in the order the checks run.
pub open spec fn spec_user_bet_error(
    arena: ArenaState,
    user_state: UserState,
    bet_slot: Option<UserBetState>,
    eight_box: EightBoxState,
    hour: HourState,
    day: DayState,
    week: WeekState,
    user: Seq<u8>,
    ref_key: Seq<u8>,
    hash_key: Seq<u8>,
    side: BetSide,
    bet_amount: u64,
    now: u64,
) -> Option<BettingError> {
    if bet_slot is Some {
        Some(BettingError::BetAlreadyPlaced)
    } else if !(arena.status is Opened) {
        Some(BettingError::ArenaNotOpened)
    } else if user_state.is_ref_inited && user_state.referrer@ != ref_key {
        Some(BettingError::ReferrerMisMatch)
    } else if spec_ref_hash(user, ref_key) != hash_key {
        Some(BettingError::InvalidReferrerHash)
    } else if !spec_in_window(hour.start_time, ONE_HOUR, now) {
        Some(BettingError::IncorrectHour)
    } else if !spec_in_window(day.start_time, ONE_DAY, now) {
        Some(BettingError::IncorrectDay)
    } else if !spec_in_window(week.start_time, ONE_WEEK, now) {
        Some(BettingError::IncorrectWeek)
    } else if spec_accrual_overflow(arena, eight_box, hour, day, week, side, bet_amount) {
        Some(BettingError::ArithmeticOverflow)
    } else {
        None
    }
}

/// Records one wager: binds the referrer on the participant's first bet,
/// creates the bet record, grows the arena's side aggregate and count, and
/// adds the stake to the milestone bucket and the three epoch ledgers.
///
/// A participant bets at most once per arena (the bet slot must be empty),
/// may only repeat the referrer bound by their first wager, must present a
/// valid referral proof, and must wager inside each supplied epoch window.
/// On any error nothing changes.
pub fn user_bet(
    arena: &mut ArenaState,
    user_state: &mut UserState,
    bet_slot: &mut Option<UserBetState>,
    eight_box_state: &mut EightBoxState,
    hour_state: &mut HourState,
    day_state: &mut DayState,
    week_state: &mut WeekState,
    user: &Identity,
    bet_amount: u64,
    side: BetSide,
    ref_key: &Identity,
    hash_key: &[u8; 32],
    now: u64,
) -> (r: Result<(), BettingError>)
    ensures
        ({
            let err = spec_user_bet_error(
                *old(arena),
                *old(user_state),
                *old(bet_slot),
                *old(eight_box_state),
                *old(hour_state),
                *old(day_state),
                *old(week_state),
                user@,
                ref_key@,
                hash_key@,
                side,
                bet_amount,
                now,
            );
            &&& (r is Err <==> err is Some)
            &&& (r is Err ==> r->Err_0 == err->0)
        }),
        r is Err ==> {
            &&& *final(arena) == *old(arena)
            &&& *final(user_state) == *old(user_state)
            &&& *final(bet_slot) == *old(bet_slot)
            &&& *final(eight_box_state) == *old(eight_box_state)
            &&& *final(hour_state) == *old(hour_state)
            &&& *final(day_state) == *old(day_state)
            &&& *final(week_state) == *old(week_state)
        },
        r is Ok ==> {
            &&& *final(arena) == (if side is Up {
                ArenaState {
                    up_amount: (old(arena).up_amount + bet_amount) as u64,
                    up_count: (old(arena).up_count + 1) as u64,
                    ..*old(arena)
                }
            } else {
                ArenaState {
                    down_amount: (old(arena).down_amount + bet_amount) as u64,
                    down_count: (old(arena).down_count + 1) as u64,
                    ..*old(arena)
                }
            })
            &&& *final(user_state) == (if old(user_state).is_ref_inited {
                *old(user_state)
            } else {
                UserState { referrer: *ref_key, is_ref_inited: true, ..*old(user_state) }
            })
            &&& *final(bet_slot) == Some(
                UserBetState {
                    user: *user,
                    bet_timestamp: now,
                    arena_id: old(arena).arena_id,
                    bet_amount,
                    side,
                    is_claimed: false,
                },
            )
            &&& *final(eight_box_state) == (EightBoxState {
                bet_amount: (old(eight_box_state).bet_amount + bet_amount) as u64,
                ..*old(eight_box_state)
            })
            &&& *final(hour_state) == (HourState {
                bet_amount: (old(hour_state).bet_amount + bet_amount) as u64,
                ..*old(hour_state)
            })
            &&& *final(day_state) == (DayState {
                bet_amount: (old(day_state).bet_amount + bet_amount) as u64,
                ..*old(day_state)
            })
            &&& *final(week_state) == (WeekState {
                bet_amount: (old(week_state).bet_amount + bet_amount) as u64,
                ..*old(week_state)
            })
        },
{
    if bet_slot.is_some() {
        return Err(BettingError::BetAlreadyPlaced);
    }
    if !(arena.status == crate::states::ArenaStatus::Opened) {
        return Err(BettingError::ArenaNotOpened);
    }
    if user_state.is_ref_inited && !identity_eq(&user_state.referrer, ref_key) {
        return Err(BettingError::ReferrerMisMatch);
    }
    assert_ref_hash(user, ref_key, hash_key)?;
    if !(hour_state.start_time <= now && now - hour_state.start_time <= ONE_HOUR) {
        return Err(BettingError::IncorrectHour);
    }
    if !(day_state.start_time <= now && now - day_state.start_time <= ONE_DAY) {
        return Err(BettingError::IncorrectDay);
    }
    if !(week_state.start_time <= now && now - week_state.start_time <= ONE_WEEK) {
        return Err(BettingError::IncorrectWeek);
    }
    // Every new total is computed before anything is written, so a late
    // overflow cannot leave a partial accrual behind.
    let (new_side_amount, new_side_count) = match side {
        BetSide::Up => {
            match (arena.up_amount.checked_add(bet_amount), arena.up_count.checked_add(1)) {
                (Some(a), Some(c)) => (a, c),
                _ => {
                    return Err(BettingError::ArithmeticOverflow);
                },
            }
        },
        BetSide::Down => {
            match (arena.down_amount.checked_add(bet_amount), arena.down_count.checked_add(1)) {
                (Some(a), Some(c)) => (a, c),
                _ => {
                    return Err(BettingError::ArithmeticOverflow);
                },
            }
        },
    };
    let new_eight_box = match eight_box_state.bet_amount.checked_add(bet_amount) {
        Some(v) => v,
        None => {
            return Err(BettingError::ArithmeticOverflow);
        },
    };
    let new_hour = match hour_state.bet_amount.checked_add(bet_amount) {
        Some(v) => v,
        None => {
            return Err(BettingError::ArithmeticOverflow);
        },
    };
    let new_day = match day_state.bet_amount.checked_add(bet_amount) {
        Some(v) => v,
        None => {
            return Err(BettingError::ArithmeticOverflow);
        },
    };
    let new_week = match week_state.bet_amount.checked_add(bet_amount) {
        Some(v) => v,
        None => {
            return Err(BettingError::ArithmeticOverflow);
        },
    };
    match side {
        BetSide::Up => {
            arena.up_amount = new_side_amount;
            arena.up_count = new_side_count;
        },
        BetSide::Down => {
            arena.down_amount = new_side_amount;
            arena.down_count = new_side_count;
        },
    }
    if !user_state.is_ref_inited {
        user_state.is_ref_inited = true;
        user_state.referrer = *ref_key;
    }
    *bet_slot = Some(
        UserBetState {
            user: *user,
            bet_timestamp: now,
            arena_id: arena.arena_id,
            bet_amount,
            side,
            is_claimed: false,
        },
    );
    eight_box_state.bet_amount = new_eight_box;
    hour_state.bet_amount = new_hour;
    day_state.bet_amount = new_day;
    week_state.bet_amount = new_week;
    Ok(())
}

} // verus!
