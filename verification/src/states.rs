//! The records the engine keeps, and the constructors that create them.
//!
//! Each struct mirrors one row of the host's transactional store. The engine
//! never touches storage itself: the host fetches the rows an operation
//! names, hands them in by reference, and writes them back if the call
//! succeeded.

use vstd::prelude::*;

use crate::errors::BettingError;
use crate::{EIGHT_HOUR, FEE_RATE_DENOMINATOR, INITIAL_PLATFORM_FEE_RATE, INITIAL_REF_FEE_RATE,
    ONE_DAY, ONE_HOUR, ONE_WEEK};

verus! {

/// An authenticated participant identity, as the host supplies it.
/// The engine never interprets the bytes; it only compares them and feeds
/// them into the referral proof hash.
pub type Identity = [u8; 32];

/// Compares two identities byte for byte.
pub fn identity_eq(a: &Identity, b: &Identity) -> (r: bool)
    ensures
        r <==> a@ == b@,
{
    let mut i: usize = 0;
    while i < 32
        invariant
            i <= 32,
            forall|j: int| 0 <= j < i ==> a@[j] == b@[j],
        decreases 32 - i,
    {
        if a[i] != b[i] {
            return false;
        }
        i = i + 1;
    }
    proof {
        assert(a@ =~= b@);
    }
    true
}

/// Where an arena stands in its lifecycle.
#[derive(Clone, Copy, Debug, PartialEq, Eq, Structural)]
pub enum ArenaStatus {
    /// Wagers are accepted.
    Opened,
    /// The reference price is locked; wagers are closed.
    Started,
    /// Settled, but the fee would have eaten into winners' principal:
    /// every winner is refunded their own stake only.
    EndRatioBelow,
    /// Settled normally: winners share the pool minus fees.
    EndSuccess,
    /// Cancelled by the administrator; every bettor may reclaim their stake.
    Cancelled,
}

/// Which way a wager points.
#[derive(Clone, Copy, Debug, PartialEq, Eq, Structural)]
pub enum BetSide {
    /// The price will close below its locked value.
    Down,
    /// The price will close at or above its locked value.
    Up,
}

/// The singleton configuration record.
#[derive(Clone, Copy, Debug)]
pub struct GlobalState {
    /// The configuration exists and was written by `initialize`.
    pub is_initialized: bool,
    /// The administrator allowed to run arena lifecycle operations.
    pub authority: Identity,
    /// Receiver of the platform's fee take.
    pub treasury: Identity,
    /// The fungible token wagers are made in.
    pub token_mint: Identity,
    /// The fungible token ranking rewards are paid in.
    pub rank_mint: Identity,
    /// Default duration copied into an arena when it starts, in seconds.
    pub arena_duration: u64,
    /// Platform fee, in parts per `FEE_RATE_DENOMINATOR` of the pool.
    pub platform_fee_rate: u64,
    /// Referrer cut, in parts per `FEE_RATE_DENOMINATOR` of the platform fee.
    pub referral_fee_rate: u64,
}

impl GlobalState {
    /// Both fee rates stay within their fixed denominator, so a fee can
    /// never exceed the amount it is levied on.
    pub open spec fn wf(self) -> bool {
        &&& self.platform_fee_rate <= FEE_RATE_DENOMINATOR
        &&& self.referral_fee_rate <= FEE_RATE_DENOMINATOR
    }
}

/// One betting round.
#[derive(Clone, Copy, Debug)]
pub struct ArenaState {
    /// The numeric id the host addresses this arena by.
    pub arena_id: u64,
    /// Reference price recorded when the arena started.
    pub locked_price: u64,
    /// When the arena started, in seconds.
    pub start_timestamp: u64,
    /// Betting window length copied from the configuration at start.
    pub duration: u64,
    /// Lifecycle position.
    pub status: ArenaStatus,
    /// Aggregate stake wagered on `Up`.
    pub up_amount: u64,
    /// Number of `Up` wagers.
    pub up_count: u64,
    /// Aggregate stake wagered on `Down`.
    pub down_amount: u64,
    /// Number of `Down` wagers.
    pub down_count: u64,
    /// Reference price recorded at settlement or cancellation.
    pub final_price: u64,
    /// When the arena settled or was cancelled, in seconds.
    pub end_timestamp: u64,
    /// The winning side, valid once the arena is settled.
    pub bet_result: BetSide,
}

impl ArenaState {
    /// The aggregate stake on the winning side once settled.
    pub open spec fn winning_amount(self) -> u64 {
        if self.bet_result is Up {
            self.up_amount
        } else {
            self.down_amount
        }
    }
}

/// One participant's wager on one arena. Its unclaimed flag is the
/// exactly-once guard for the arena payout path.
#[derive(Clone, Copy, Debug)]
pub struct UserBetState {
    /// The wagering participant.
    pub user: Identity,
    /// When the wager was recorded, in seconds.
    pub bet_timestamp: u64,
    /// The arena wagered on.
    pub arena_id: u64,
    /// The stake.
    pub bet_amount: u64,
    /// The chosen side.
    pub side: BetSide,
    /// Set once the payout or refund has been made.
    pub is_claimed: bool,
}

/// One participant's referral standing and pending referral reward.
#[derive(Clone, Copy, Debug)]
pub struct UserState {
    /// The participant.
    pub user: Identity,
    /// The referrer bound by the participant's first wager.
    pub referrer: Identity,
    /// Whether `referrer` has been bound; once true it never changes.
    pub is_ref_inited: bool,
    /// Referral fees credited by winners' claims, not yet drained.
    pub ref_reward: u64,
}

/// Cumulative wager of one participant within one hour epoch.
#[derive(Clone, Copy, Debug)]
pub struct HourState {
    /// The participant.
    pub user: Identity,
    /// Epoch-aligned start of the hour, in seconds.
    pub start_time: u64,
    /// Stake accumulated within the epoch.
    pub bet_amount: u64,
    /// Set once the epoch's ranking reward has been paid.
    pub is_claimed: bool,
}

/// Cumulative wager of one participant within one day epoch.
#[derive(Clone, Copy, Debug)]
pub struct DayState {
    /// The participant.
    pub user: Identity,
    /// Epoch-aligned start of the day, in seconds.
    pub start_time: u64,
    /// Stake accumulated within the epoch.
    pub bet_amount: u64,
    /// Set once the epoch's ranking reward has been paid.
    pub is_claimed: bool,
}

/// Cumulative wager of one participant within one week epoch.
#[derive(Clone, Copy, Debug)]
pub struct WeekState {
    /// The participant.
    pub user: Identity,
    /// Epoch-aligned start of the week, in seconds.
    pub start_time: u64,
    /// Stake accumulated within the epoch.
    pub bet_amount: u64,
    /// Set once the epoch's ranking reward has been paid.
    pub is_claimed: bool,
}

/// Cumulative wager of one participant within one milestone bucket, with a
/// bitmask of the milestone tiers already paid (bit `t` set means tier `t`
/// was claimed).
#[derive(Clone, Copy, Debug)]
pub struct EightBoxState {
    /// The participant.
    pub user: Identity,
    /// Bucket-aligned start time, in seconds.
    pub start_time: u64,
    /// Stake accumulated within the bucket.
    pub bet_amount: u64,
    /// Bit `t` set means milestone tier `t` has been claimed.
    pub claimed_status: u8,
}

/// The published outcome of one hour epoch: stake thresholds in descending
/// value order (position 0 is the richest tier) and the reward paid per tier.
#[derive(Debug)]
pub struct HourResult {
    /// The epoch identifier.
    pub hour: u64,
    /// Stake thresholds, best tier first.
    pub tiers: Vec<u64>,
    /// Reward paid for each tier, parallel to `tiers`.
    pub reward_per_tier: Vec<u64>,
}

impl HourResult {
    /// Hour results always publish exactly five tiers.
    pub open spec fn wf(self) -> bool {
        self.tiers@.len() == 5 && self.reward_per_tier@.len() == 5
    }
}

/// The published outcome of one day epoch; see `HourResult`.
#[derive(Debug)]
pub struct DayResult {
    /// The epoch identifier.
    pub day: u64,
    /// Stake thresholds, best tier first.
    pub tiers: Vec<u64>,
    /// Reward paid for each tier, parallel to `tiers`.
    pub reward_per_tier: Vec<u64>,
}

impl DayResult {
    /// Day results always publish exactly seven tiers.
    pub open spec fn wf(self) -> bool {
        self.tiers@.len() == 7 && self.reward_per_tier@.len() == 7
    }
}

/// The published outcome of one week epoch; see `HourResult`.
#[derive(Debug)]
pub struct WeekResult {
    /// The epoch identifier.
    pub week: u64,
    /// Stake thresholds, best tier first.
    pub tiers: Vec<u64>,
    /// Reward paid for each tier, parallel to `tiers`.
    pub reward_per_tier: Vec<u64>,
}

impl WeekResult {
    /// Week results always publish exactly nine tiers.
    pub open spec fn wf(self) -> bool {
        self.tiers@.len() == 9 && self.reward_per_tier@.len() == 9
    }
}

/// Writes the singleton configuration. On first use any caller may install
/// it; once initialized, only the configured administrator may overwrite it.
pub fn initialize(
    prev: &Option<GlobalState>,
    caller: &Identity,
    new_authority: Identity,
    treasury: Identity,
    token_mint: Identity,
    rank_mint: Identity,
    arena_duration: u64,
) -> (r: Result<GlobalState, BettingError>)
    ensures
        r is Err <==> (prev is Some && prev->0.is_initialized && prev->0.authority@ != caller@),
        r is Err ==> r->Err_0 == BettingError::NotAllowedAuthority,
        r is Ok ==> r->Ok_0 == (GlobalState {
            is_initialized: true,
            authority: new_authority,
            treasury,
            token_mint,
            rank_mint,
            arena_duration,
            platform_fee_rate: INITIAL_PLATFORM_FEE_RATE,
            referral_fee_rate: INITIAL_REF_FEE_RATE,
        }),
        r is Ok ==> r->Ok_0.wf(),
{
    match prev {
        Some(g) => {
            if g.is_initialized && !identity_eq(&g.authority, caller) {
                return Err(BettingError::NotAllowedAuthority);
            }
        },
        None => {},
    }
    Ok(GlobalState {
        is_initialized: true,
        authority: new_authority,
        treasury,
        token_mint,
        rank_mint,
        arena_duration,
        platform_fee_rate: INITIAL_PLATFORM_FEE_RATE,
        referral_fee_rate: INITIAL_REF_FEE_RATE,
    })
}

/// Creates a participant's referral record with no referrer bound yet.
pub fn init_user_state(user_key: Identity) -> (r: UserState)
    ensures
        r.user == user_key,
        !r.is_ref_inited,
        r.ref_reward == 0,
{
    UserState { user: user_key, referrer: [0u8; 32], is_ref_inited: false, ref_reward: 0 }
}

/// Creates a participant's hour epoch ledger for hour number `hour`.
pub fn init_hour_state(user_key: Identity, hour: u64) -> (r: Result<HourState, BettingError>)
    ensures
        r is Ok <==> hour * ONE_HOUR <= u64::MAX,
        r is Err ==> r->Err_0 == BettingError::ArithmeticOverflow,
        r is Ok ==> r->Ok_0 == (HourState {
            user: user_key,
            start_time: (hour * ONE_HOUR) as u64,
            bet_amount: 0,
            is_claimed: false,
        }),
{
    match hour.checked_mul(ONE_HOUR) {
        Some(start_time) => Ok(HourState { user: user_key, start_time, bet_amount: 0, is_claimed: false }),
        None => Err(BettingError::ArithmeticOverflow),
    }
}

/// Creates a participant's day epoch ledger for day number `day`.
pub fn init_day_state(user_key: Identity, day: u64) -> (r: Result<DayState, BettingError>)
    ensures
        r is Ok <==> day * ONE_DAY <= u64::MAX,
        r is Err ==> r->Err_0 == BettingError::ArithmeticOverflow,
        r is Ok ==> r->Ok_0 == (DayState {
            user: user_key,
            start_time: (day * ONE_DAY) as u64,
            bet_amount: 0,
            is_claimed: false,
        }),
{
    match day.checked_mul(ONE_DAY) {
        Some(start_time) => Ok(DayState { user: user_key, start_time, bet_amount: 0, is_claimed: false }),
        None => Err(BettingError::ArithmeticOverflow),
    }
}

/// Creates a participant's week epoch ledger for week number `week`.
pub fn init_week_state(user_key: Identity, week: u64) -> (r: Result<WeekState, BettingError>)
    ensures
        r is Ok <==> week * ONE_WEEK <= u64::MAX,
        r is Err ==> r->Err_0 == BettingError::ArithmeticOverflow,
        r is Ok ==> r->Ok_0 == (WeekState {
            user: user_key,
            start_time: (week * ONE_WEEK) as u64,
            bet_amount: 0,
            is_claimed: false,
        }),
{
    match week.checked_mul(ONE_WEEK) {
        Some(start_time) => Ok(WeekState { user: user_key, start_time, bet_amount: 0, is_claimed: false }),
        None => Err(BettingError::ArithmeticOverflow),
    }
}

/// Creates a participant's milestone bucket record for bucket `box_id`,
/// with no tier claimed.
pub fn init_eight_box_state(user_key: Identity, box_id: u64) -> (r: Result<
    EightBoxState,
    BettingError,
>)
    ensures
        r is Ok <==> box_id * EIGHT_HOUR <= u64::MAX,
        r is Err ==> r->Err_0 == BettingError::ArithmeticOverflow,
        r is Ok ==> r->Ok_0 == (EightBoxState {
            user: user_key,
            start_time: (box_id * EIGHT_HOUR) as u64,
            bet_amount: 0,
            claimed_status: 0,
        }),
{
    match box_id.checked_mul(EIGHT_HOUR) {
        Some(start_time) => Ok(
            EightBoxState { user: user_key, start_time, bet_amount: 0, claimed_status: 0 },
        ),
        None => Err(BettingError::ArithmeticOverflow),
    }
}

} // verus!
