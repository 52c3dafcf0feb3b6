//! The ranking reward resolver, for the hour, day and week epochs.
//!
//! An epoch's result is published once: stake thresholds in descending value
//! order (position 0 is the richest tier) and a parallel reward table. A
//! participant's rank is the first position whose threshold their accrued
//! stake meets; claiming pays that position's reward exactly once and, for
//! the top positions, unlocks a collectible.

use vstd::prelude::*;

use crate::errors::BettingError;
use crate::states::{DayResult, DayState, HourResult, HourState, WeekResult, WeekState};

verus! {

/// The first position in `tiers` whose threshold `stake` meets, or
/// `tiers.len()` when none does.
pub open spec fn spec_rank_index(tiers: Seq<u64>, stake: u64) -> int
    decreases tiers.len(),
{
    if tiers.len() == 0 {
        0
    } else if stake >= tiers[0] {
        0
    } else {
        1 + spec_rank_index(tiers.drop_first(), stake)
    }
}

/// What `spec_rank_index` points at: the smallest qualifying position.
pub proof fn lemma_rank_index_characterization(tiers: Seq<u64>, stake: u64)
    ensures
        0 <= spec_rank_index(tiers, stake) <= tiers.len(),
        spec_rank_index(tiers, stake) < tiers.len() ==> stake >= tiers[spec_rank_index(
            tiers,
            stake,
        )],
        forall|j: int| 0 <= j < spec_rank_index(tiers, stake) ==> stake < tiers[j],
        spec_rank_index(tiers, stake) == tiers.len() ==> forall|j: int|
            0 <= j < tiers.len() ==> stake < tiers[j],
    decreases tiers.len(),
{
    if tiers.len() > 0 && stake < tiers[0] {
        lemma_rank_index_characterization(tiers.drop_first(), stake);
        assert(forall|j: int|
            0 <= j < spec_rank_index(tiers.drop_first(), stake) ==> stake < tiers.drop_first()[j]);
        assert forall|j: int| 0 <= j < spec_rank_index(tiers, stake) implies stake < tiers[j] by {
            if j > 0 {
                assert(tiers.drop_first()[j - 1] == tiers[j]);
            }
        }
    }
}

/// Finds the first position in `tiers` whose threshold `stake` meets.
pub fn rank_position(tiers: &Vec<u64>, stake: u64) -> (r: Option<usize>)
    ensures
        r is Some <==> spec_rank_index(tiers@, stake) < tiers@.len(),
        r is Some ==> r->0 == spec_rank_index(tiers@, stake),
{
    let mut i: usize = 0;
    while i < tiers.len()
        invariant
            i <= tiers@.len(),
            forall|j: int| 0 <= j < i ==> stake < tiers@[j],
        decreases tiers@.len() - i,
    {
        if stake >= tiers[i] {
            proof {
                lemma_rank_index_characterization(tiers@, stake);
            }
            return Some(i);
        }
        i = i + 1;
    }
    proof {
        lemma_rank_index_characterization(tiers@, stake);
    }
    None
}

/// Publishes the result of one hour epoch.
pub fn end_hour(hour: u64, tiers: Vec<u64>, rewards: Vec<u64>) -> (r: HourResult)
    requires
        tiers@.len() == 5,
        rewards@.len() == 5,
    ensures
        r.hour == hour,
        r.tiers@ == tiers@,
        r.reward_per_tier@ == rewards@,
        r.wf(),
{
    HourResult { hour, tiers, reward_per_tier: rewards }
}

/// Publishes the result of one day epoch.
pub fn end_day(day: u64, tiers: Vec<u64>, rewards: Vec<u64>) -> (r: DayResult)
    requires
        tiers@.len() == 7,
        rewards@.len() == 7,
    ensures
        r.day == day,
        r.tiers@ == tiers@,
        r.reward_per_tier@ == rewards@,
        r.wf(),
{
    DayResult { day, tiers, reward_per_tier: rewards }
}

/// Publishes the result of one week epoch.
pub fn end_week(week: u64, tiers: Vec<u64>, rewards: Vec<u64>) -> (r: WeekResult)
    requires
        tiers@.len() == 9,
        rewards@.len() == 9,
    ensures
        r.week == week,
        r.tiers@ == tiers@,
        r.reward_per_tier@ == rewards@,
        r.wf(),
{
    WeekResult { week, tiers, reward_per_tier: rewards }
}

/// Which collectible a ranking claim unlocks beside its token reward.
#[derive(Clone, Copy, Debug, PartialEq, Eq, Structural)]
pub enum CollectibleUnlock {
    /// No collectible for this position.
    NoBonus,
    /// A loot bundle of the given variant.
    Bundle(u8),
    /// The unique top collectible.
    TopCollectible,
}

/// What one ranking claim grants.
#[derive(Clone, Copy, Debug, PartialEq, Eq, Structural)]
pub struct RankClaim {
    /// The resolved rank position, 0 being the best.
    pub position: usize,
    /// Tokens paid from the epoch reward vault.
    pub reward_amount: u64,
    /// Collectible unlocked beside the tokens, if any.
    pub unlock: CollectibleUnlock,
}

/// Why a ranking claim is refused, if it is: the stake must reach the last
/// (lowest) published threshold — which also rejects claims against an epoch
/// whose result was never published, since a zeroed tier table qualifies
/// everyone but a zeroed record claims nothing — and the ledger must still
/// be unclaimed.
pub open spec fn spec_rank_claim_error(stake: u64, is_claimed: bool, tiers: Seq<u64>) -> Option<
    BettingError,
> {
    if tiers.len() == 0 || stake < tiers[tiers.len() - 1] {
        Some(BettingError::UnableToClaim)
    } else if is_claimed {
        Some(BettingError::AlreadyClaimed)
    } else {
        None
    }
}

/// LAW. A ranking claim against an already-claimed epoch ledger never pays:
/// whatever the stake and the published tiers, the outcome is an error, and
/// each claim function's contract then leaves the ledger untouched. Together
/// with a successful claim setting the claimed flag, one epoch ledger pays at
/// most once.
pub proof fn law_rank_claim_is_exactly_once(stake: u64, tiers: Seq<u64>)
    ensures
        spec_rank_claim_error(stake, true, tiers) is Some,
{
}

/// Claims one participant's hour ranking reward exactly once. Position 0
/// additionally unlocks bundle variant 0.
pub fn claim_hour_rank_reward(state: &mut HourState, result: &HourResult) -> (r: Result<
    RankClaim,
    BettingError,
>)
    requires
        result.wf(),
    ensures
        ({
            let err = spec_rank_claim_error(
                old(state).bet_amount,
                old(state).is_claimed,
                result.tiers@,
            );
            &&& (r is Err <==> err is Some)
            &&& (r is Err ==> r->Err_0 == err->0 && *final(state) == *old(state))
        }),
        r is Ok ==> ({
            let pos = spec_rank_index(result.tiers@, old(state).bet_amount);
            &&& r->Ok_0.position == pos
            &&& r->Ok_0.reward_amount == result.reward_per_tier@[pos]
            &&& r->Ok_0.unlock == (if pos == 0 {
                CollectibleUnlock::Bundle(0)
            } else {
                CollectibleUnlock::NoBonus
            })
            &&& *final(state) == (HourState { is_claimed: true, ..*old(state) })
        }),
{
    if state.bet_amount < result.tiers[result.tiers.len() - 1] {
        return Err(BettingError::UnableToClaim);
    }
    if state.is_claimed {
        return Err(BettingError::AlreadyClaimed);
    }
    proof {
        lemma_rank_index_characterization(result.tiers@, state.bet_amount);
    }
    let position = match rank_position(&result.tiers, state.bet_amount) {
        Some(p) => p,
        None => {
            return Err(BettingError::UnableToClaim);  // unreachable: the last tier qualifies
        },
    };
    let reward_amount = result.reward_per_tier[position];
    let unlock = if position == 0 {
        CollectibleUnlock::Bundle(0)
    } else {
        CollectibleUnlock::NoBonus
    };
    state.is_claimed = true;
    Ok(RankClaim { position, reward_amount, unlock })
}

/// Claims one participant's day ranking reward exactly once. Position 0
/// additionally unlocks bundle variant 4.
pub fn claim_day_rank_reward(state: &mut DayState, result: &DayResult) -> (r: Result<
    RankClaim,
    BettingError,
>)
    requires
        result.wf(),
    ensures
        ({
            let err = spec_rank_claim_error(
                old(state).bet_amount,
                old(state).is_claimed,
                result.tiers@,
            );
            &&& (r is Err <==> err is Some)
            &&& (r is Err ==> r->Err_0 == err->0 && *final(state) == *old(state))
        }),
        r is Ok ==> ({
            let pos = spec_rank_index(result.tiers@, old(state).bet_amount);
            &&& r->Ok_0.position == pos
            &&& r->Ok_0.reward_amount == result.reward_per_tier@[pos]
            &&& r->Ok_0.unlock == (if pos == 0 {
                CollectibleUnlock::Bundle(4)
            } else {
                CollectibleUnlock::NoBonus
            })
            &&& *final(state) == (DayState { is_claimed: true, ..*old(state) })
        }),
{
    if state.bet_amount < result.tiers[result.tiers.len() - 1] {
        return Err(BettingError::UnableToClaim);
    }
    if state.is_claimed {
        return Err(BettingError::AlreadyClaimed);
    }
    proof {
        lemma_rank_index_characterization(result.tiers@, state.bet_amount);
    }
    let position = match rank_position(&result.tiers, state.bet_amount) {
        Some(p) => p,
        None => {
            return Err(BettingError::UnableToClaim);  // unreachable: the last tier qualifies
        },
    };
    let reward_amount = result.reward_per_tier[position];
    let unlock = if position == 0 {
        CollectibleUnlock::Bundle(4)
    } else {
        CollectibleUnlock::NoBonus
    };
    state.is_claimed = true;
    Ok(RankClaim { position, reward_amount, unlock })
}

/// Claims one participant's week ranking reward exactly once. Position 0
/// unlocks the unique top collectible; positions 1 and 2 unlock bundle
/// variant 4.
pub fn claim_week_rank_reward(state: &mut WeekState, result: &WeekResult) -> (r: Result<
    RankClaim,
    BettingError,
>)
    requires
        result.wf(),
    ensures
        ({
            let err = spec_rank_claim_error(
                old(state).bet_amount,
                old(state).is_claimed,
                result.tiers@,
            );
            &&& (r is Err <==> err is Some)
            &&& (r is Err ==> r->Err_0 == err->0 && *final(state) == *old(state))
        }),
        r is Ok ==> ({
            let pos = spec_rank_index(result.tiers@, old(state).bet_amount);
            &&& r->Ok_0.position == pos
            &&& r->Ok_0.reward_amount == result.reward_per_tier@[pos]
            &&& r->Ok_0.unlock == (if pos == 0 {
                CollectibleUnlock::TopCollectible
            } else if pos == 1 || pos == 2 {
                CollectibleUnlock::Bundle(4)
            } else {
                CollectibleUnlock::NoBonus
            })
            &&& *final(state) == (WeekState { is_claimed: true, ..*old(state) })
        }),
{
    if state.bet_amount < result.tiers[result.tiers.len() - 1] {
        return Err(BettingError::UnableToClaim);
    }
    if state.is_claimed {
        return Err(BettingError::AlreadyClaimed);
    }
    proof {
        lemma_rank_index_characterization(result.tiers@, state.bet_amount);
    }
    let position = match rank_position(&result.tiers, state.bet_amount) {
        Some(p) => p,
        None => {
            return Err(BettingError::UnableToClaim);  // unreachable: the last tier qualifies
        },
    };
    let reward_amount = result.reward_per_tier[position];
    let unlock = if position == 0 {
        CollectibleUnlock::TopCollectible
    } else if position == 1 || position == 2 {
        CollectibleUnlock::Bundle(4)
    } else {
        CollectibleUnlock::NoBonus
    };
    state.is_claimed = true;
    Ok(RankClaim { position, reward_amount, unlock })
}

/// Reports a participant's one-based rank within the published hour result:
/// the first qualifying position plus one. A stake qualifying for no tier
/// reports rank 1 as well, since the fallback position is 0.
pub fn get_hour_rank(state: &HourState, result: &HourResult) -> (r: u8)
    requires
        result.wf(),
    ensures
        r == 1 + (if spec_rank_index(result.tiers@, state.bet_amount) < result.tiers@.len() {
            spec_rank_index(result.tiers@, state.bet_amount)
        } else {
            0
        }),
{
    proof {
        lemma_rank_index_characterization(result.tiers@, state.bet_amount);
    }
    match rank_position(&result.tiers, state.bet_amount) {
        Some(p) => (p + 1) as u8,
        None => 1,
    }
}

/// Reports a participant's one-based rank within the published day result;
/// see `get_hour_rank`.
pub fn get_day_rank(state: &DayState, result: &DayResult) -> (r: u8)
    requires
        result.wf(),
    ensures
        r == 1 + (if spec_rank_index(result.tiers@, state.bet_amount) < result.tiers@.len() {
            spec_rank_index(result.tiers@, state.bet_amount)
        } else {
            0
        }),
{
    proof {
        lemma_rank_index_characterization(result.tiers@, state.bet_amount);
    }
    match rank_position(&result.tiers, state.bet_amount) {
        Some(p) => (p + 1) as u8,
        None => 1,
    }
}

/// Reports a participant's one-based rank within the published week result;
/// see `get_hour_rank`.
pub fn get_week_rank(state: &WeekState, result: &WeekResult) -> (r: u8)
    requires
        result.wf(),
    ensures
        r == 1 + (if spec_rank_index(result.tiers@, state.bet_amount) < result.tiers@.len() {
            spec_rank_index(result.tiers@, state.bet_amount)
        } else {
            0
        }),
{
    proof {
        lemma_rank_index_characterization(result.tiers@, state.bet_amount);
    }
    match rank_position(&result.tiers, state.bet_amount) {
        Some(p) => (p + 1) as u8,
        None => 1,
    }
}

} // verus!
