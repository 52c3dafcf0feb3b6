//! The settlement and fee calculator.
//!
//! All formulas work over the pool of one arena: `pool = up + down`. Fees are
//! parts per `FEE_RATE_DENOMINATOR`, every division floors toward zero, and
//! the referral fee is always a fraction of a platform fee, never of the pool
//! directly. The laws at the end of the module bound how much a settlement
//! can ever pay out.

use vstd::prelude::*;
use vstd::arithmetic::div_mod::{
    lemma_div_is_ordered, lemma_div_multiples_vanish, lemma_div_pos_is_pos,
    lemma_fundamental_div_mod, lemma_hoist_over_denominator, lemma_mod_division_less_than_divisor,
    lemma_multiply_divide_le,
};
use vstd::arithmetic::mul::{
    lemma_mul_inequality, lemma_mul_is_commutative, lemma_mul_is_distributive_add,
    lemma_mul_is_distributive_add_other_way, lemma_mul_nonnegative, lemma_mul_upper_bound,
};

use crate::errors::BettingError;
use crate::states::BetSide;
use crate::FEE_RATE_DENOMINATOR;

verus! {

/// The total pool of an arena: both sides' stakes together.
pub open spec fn spec_pool(up: int, down: int) -> int {
    up + down
}

/// The platform's top-line fee on a pool.
pub open spec fn spec_platform_fee(pool: int, platform_fee_rate: int) -> int {
    pool * platform_fee_rate / (FEE_RATE_DENOMINATOR as int)
}

/// What remains for winners after the platform fee.
pub open spec fn spec_expected_reward(pool: int, platform_fee_rate: int) -> int {
    pool - spec_platform_fee(pool, platform_fee_rate)
}

/// The fee take would eat into winners' principal: the pool minus the fee
/// no longer covers the winning side's own stakes.
pub open spec fn spec_ratio_below(pool: int, platform_fee_rate: int, winning_amount: int) -> bool {
    spec_expected_reward(pool, platform_fee_rate) < winning_amount
}

/// The aggregate referral provision carved out of the platform fee at
/// settlement time.
pub open spec fn spec_global_ref_fee(pool: int, platform_fee_rate: int, referral_fee_rate: int) -> int {
    spec_platform_fee(pool, platform_fee_rate) * referral_fee_rate / (FEE_RATE_DENOMINATOR as int)
}

/// What the treasury receives at a successful settlement: the platform fee
/// minus the aggregate referral provision.
pub open spec fn spec_real_platform_fee(pool: int, platform_fee_rate: int, referral_fee_rate: int) -> int {
    spec_platform_fee(pool, platform_fee_rate) - spec_global_ref_fee(
        pool,
        platform_fee_rate,
        referral_fee_rate,
    )
}

/// A winner's gross share of the pool, proportional to their stake within
/// the winning side.
pub open spec fn spec_user_reward(pool: int, bet: int, winning: int) -> int {
    pool * bet / winning
}

/// The platform fee levied on one winner's gross share at claim time.
pub open spec fn spec_user_platform_fee(pool: int, bet: int, winning: int, platform_fee_rate: int) -> int {
    spec_user_reward(pool, bet, winning) * platform_fee_rate / (FEE_RATE_DENOMINATOR as int)
}

/// The cut of one winner's platform fee credited to that winner's referrer.
pub open spec fn spec_user_ref_fee(
    pool: int,
    bet: int,
    winning: int,
    platform_fee_rate: int,
    referral_fee_rate: int,
) -> int {
    spec_user_platform_fee(pool, bet, winning, platform_fee_rate) * referral_fee_rate / (
    FEE_RATE_DENOMINATOR as int)
}

/// What one winner actually receives: gross share minus their platform fee.
pub open spec fn spec_user_net_reward(pool: int, bet: int, winning: int, platform_fee_rate: int) -> int {
    spec_user_reward(pool, bet, winning) - spec_user_platform_fee(
        pool,
        bet,
        winning,
        platform_fee_rate,
    )
}

/// What a settlement asks the host to transfer to the treasury.
#[derive(Clone, Copy, Debug, PartialEq, Eq, Structural)]
pub enum SettlementDecision {
    /// The fee would eat into principal: the whole losing pool goes to the
    /// treasury and each winner later reclaims exactly their own stake.
    RatioBelow {
        /// The losing side's aggregate stake.
        to_treasury: u64,
    },
    /// Normal settlement: the platform fee minus the aggregate referral
    /// provision goes to the treasury now; winners share the pool at claim
    /// time.
    Success {
        /// The platform fee minus the referral provision.
        to_treasury: u64,
    },
}

/// `x * rate / d` never exceeds `x` when the rate stays within the
/// denominator.
pub proof fn lemma_rate_fraction_le(x: int, rate: int, d: int)
    requires
        0 <= x,
        0 <= rate <= d,
        0 < d,
    ensures
        0 <= x * rate / d <= x,
{
    lemma_mul_nonnegative(x, rate);
    lemma_div_pos_is_pos(x * rate, d);
    lemma_mul_inequality(rate, d, x);
    lemma_mul_is_commutative(rate, x);
    lemma_mul_is_commutative(d, x);
    lemma_multiply_divide_le(x * rate, d, x);
}

/// Decides how a started arena settles, given its two aggregate stakes,
/// the configured fee rates and the winning side.
pub fn compute_settlement(
    up_amount: u64,
    down_amount: u64,
    platform_fee_rate: u64,
    referral_fee_rate: u64,
    winning_side: BetSide,
) -> (r: Result<SettlementDecision, BettingError>)
    requires
        platform_fee_rate <= FEE_RATE_DENOMINATOR,
        referral_fee_rate <= FEE_RATE_DENOMINATOR,
    ensures
        ({
            let pool = spec_pool(up_amount as int, down_amount as int);
            let winning: int = if winning_side is Up {
                up_amount as int
            } else {
                down_amount as int
            };
            let losing: int = if winning_side is Up {
                down_amount as int
            } else {
                up_amount as int
            };
            &&& (r is Err <==> pool > u64::MAX)
            &&& (r is Err ==> r->Err_0 == BettingError::ArithmeticOverflow)
            &&& (r is Ok ==> r->Ok_0 == (if spec_ratio_below(
                pool,
                platform_fee_rate as int,
                winning,
            ) {
                SettlementDecision::RatioBelow { to_treasury: losing as u64 }
            } else {
                SettlementDecision::Success {
                    to_treasury: spec_real_platform_fee(
                        pool,
                        platform_fee_rate as int,
                        referral_fee_rate as int,
                    ) as u64,
                }
            }))
        }),
{
    let pool = match up_amount.checked_add(down_amount) {
        Some(p) => p,
        None => {
            return Err(BettingError::ArithmeticOverflow);
        },
    };
    proof {
        lemma_mul_upper_bound(
            pool as int,
            u64::MAX as int,
            platform_fee_rate as int,
            FEE_RATE_DENOMINATOR as int,
        );
        lemma_rate_fraction_le(pool as int, platform_fee_rate as int, FEE_RATE_DENOMINATOR as int);
    }
    let platform_fee = ((pool as u128) * (platform_fee_rate as u128) / (FEE_RATE_DENOMINATOR
        as u128)) as u64;
    let expected_reward = pool - platform_fee;
    let winning_amount = match winning_side {
        BetSide::Up => up_amount,
        BetSide::Down => down_amount,
    };
    if expected_reward < winning_amount {
        let losing_amount = match winning_side {
            BetSide::Up => down_amount,
            BetSide::Down => up_amount,
        };
        Ok(SettlementDecision::RatioBelow { to_treasury: losing_amount })
    } else {
        proof {
            lemma_mul_upper_bound(
                spec_platform_fee(pool as int, platform_fee_rate as int),
                u64::MAX as int,
                referral_fee_rate as int,
                FEE_RATE_DENOMINATOR as int,
            );
            lemma_rate_fraction_le(
                spec_platform_fee(pool as int, platform_fee_rate as int),
                referral_fee_rate as int,
                FEE_RATE_DENOMINATOR as int,
            );
        }
        let ref_fee = ((platform_fee as u128) * (referral_fee_rate as u128) / (
        FEE_RATE_DENOMINATOR as u128)) as u64;
        Ok(SettlementDecision::Success { to_treasury: platform_fee - ref_fee })
    }
}

/// What one winning claim asks the host to transfer.
#[derive(Clone, Copy, Debug, PartialEq, Eq, Structural)]
pub struct WinnerPayout {
    /// Net reward sent to the winner.
    pub to_winner: u64,
    /// Referral fee sent to the winner's referrer's reward vault.
    pub to_referrer: u64,
}

/// Computes one winner's payout and referral fee on the success path.
///
/// The gross share is computed in extended width; if it does not fit the
/// machine word the whole claim fails rather than truncate.
pub fn compute_winner_payout(
    pool: u64,
    winning_amount: u64,
    bet_amount: u64,
    platform_fee_rate: u64,
    referral_fee_rate: u64,
) -> (r: Result<WinnerPayout, BettingError>)
    requires
        winning_amount > 0,
        platform_fee_rate <= FEE_RATE_DENOMINATOR,
        referral_fee_rate <= FEE_RATE_DENOMINATOR,
    ensures
        ({
            let ur = spec_user_reward(pool as int, bet_amount as int, winning_amount as int);
            &&& (r is Err <==> ur > u64::MAX)
            &&& (r is Err ==> r->Err_0 == BettingError::ArithmeticOverflow)
            &&& (r is Ok ==> r->Ok_0.to_winner == spec_user_net_reward(
                pool as int,
                bet_amount as int,
                winning_amount as int,
                platform_fee_rate as int,
            ))
            &&& (r is Ok ==> r->Ok_0.to_referrer == spec_user_ref_fee(
                pool as int,
                bet_amount as int,
                winning_amount as int,
                platform_fee_rate as int,
                referral_fee_rate as int,
            ))
        }),
{
    proof {
        lemma_mul_upper_bound(pool as int, u64::MAX as int, bet_amount as int, u64::MAX as int);
        lemma_mul_nonnegative(pool as int, bet_amount as int);
        lemma_div_pos_is_pos(pool as int * bet_amount as int, winning_amount as int);
    }
    let user_reward_wide = (pool as u128) * (bet_amount as u128) / (winning_amount as u128);
    if user_reward_wide > u64::MAX as u128 {
        return Err(BettingError::ArithmeticOverflow);
    }
    let user_reward = user_reward_wide as u64;
    proof {
        lemma_mul_upper_bound(
            user_reward as int,
            u64::MAX as int,
            platform_fee_rate as int,
            FEE_RATE_DENOMINATOR as int,
        );
        lemma_rate_fraction_le(
            user_reward as int,
            platform_fee_rate as int,
            FEE_RATE_DENOMINATOR as int,
        );
    }
    let platform_fee = ((user_reward as u128) * (platform_fee_rate as u128) / (
    FEE_RATE_DENOMINATOR as u128)) as u64;
    proof {
        lemma_mul_upper_bound(
            platform_fee as int,
            u64::MAX as int,
            referral_fee_rate as int,
            FEE_RATE_DENOMINATOR as int,
        );
        lemma_rate_fraction_le(
            platform_fee as int,
            referral_fee_rate as int,
            FEE_RATE_DENOMINATOR as int,
        );
    }
    let ref_fee = ((platform_fee as u128) * (referral_fee_rate as u128) / (FEE_RATE_DENOMINATOR
        as u128)) as u64;
    Ok(WinnerPayout { to_winner: user_reward - platform_fee, to_referrer: ref_fee })
}

/// Sum of a sequence of integers.
pub open spec fn sum_of(s: Seq<int>) -> int
    decreases s.len(),
{
    if s.len() == 0 {
        0
    } else {
        s[0] + sum_of(s.drop_first())
    }
}

/// Sum of the winners' gross shares, one entry of `bets` per winning bet.
pub open spec fn sum_user_rewards(bets: Seq<int>, pool: int, winning: int) -> int
    decreases bets.len(),
{
    if bets.len() == 0 {
        0
    } else {
        spec_user_reward(pool, bets[0], winning) + sum_user_rewards(
            bets.drop_first(),
            pool,
            winning,
        )
    }
}

/// Sum of the platform fees levied on the winners' claims.
pub open spec fn sum_user_platform_fees(bets: Seq<int>, pool: int, winning: int, prate: int) -> int
    decreases bets.len(),
{
    if bets.len() == 0 {
        0
    } else {
        spec_user_platform_fee(pool, bets[0], winning, prate) + sum_user_platform_fees(
            bets.drop_first(),
            pool,
            winning,
            prate,
        )
    }
}

/// Sum of the referral fees credited by the winners' claims.
pub open spec fn sum_user_ref_fees(
    bets: Seq<int>,
    pool: int,
    winning: int,
    prate: int,
    rrate: int,
) -> int
    decreases bets.len(),
{
    if bets.len() == 0 {
        0
    } else {
        spec_user_ref_fee(pool, bets[0], winning, prate, rrate) + sum_user_ref_fees(
            bets.drop_first(),
            pool,
            winning,
            prate,
            rrate,
        )
    }
}

/// Everything the winners' claims move out of the escrow: each winner's net
/// reward plus each winner's referral fee.
pub open spec fn sum_winner_payouts(
    bets: Seq<int>,
    pool: int,
    winning: int,
    prate: int,
    rrate: int,
) -> int
    decreases bets.len(),
{
    if bets.len() == 0 {
        0
    } else {
        spec_user_net_reward(pool, bets[0], winning, prate) + spec_user_ref_fee(
            pool,
            bets[0],
            winning,
            prate,
            rrate,
        ) + sum_winner_payouts(bets.drop_first(), pool, winning, prate, rrate)
    }
}

/// Floors only lose: dividing two parts separately never beats dividing
/// their sum.
proof fn lemma_div_add_le(a: int, b: int, d: int)
    requires
        0 <= a,
        0 <= b,
        0 < d,
    ensures
        a / d + b / d <= (a + b) / d,
{
    lemma_fundamental_div_mod(a, d);
    lemma_mod_division_less_than_divisor(a, d);
    lemma_hoist_over_denominator(a % d + b, a / d, d as nat);
    assert(a % d + b + (a / d) * d == a + b) by {
        lemma_mul_is_commutative(a / d, d);
    }
    lemma_div_is_ordered(b, a % d + b, d);
}

/// A sequence of nonnegative entries has a nonnegative sum.
proof fn lemma_sum_nonneg(s: Seq<int>)
    requires
        forall|i: int| 0 <= i < s.len() ==> s[i] >= 0,
    ensures
        sum_of(s) >= 0,
    decreases s.len(),
{
    if s.len() > 0 {
        lemma_sum_nonneg(s.drop_first());
    }
}

/// Each gross share is nonnegative, so their running sum is too.
proof fn lemma_sum_user_rewards_nonneg(bets: Seq<int>, pool: int, winning: int)
    requires
        0 <= pool,
        0 < winning,
        forall|i: int| 0 <= i < bets.len() ==> bets[i] >= 0,
    ensures
        sum_user_rewards(bets, pool, winning) >= 0,
    decreases bets.len(),
{
    if bets.len() > 0 {
        lemma_mul_nonnegative(pool, bets[0]);
        lemma_div_pos_is_pos(pool * bets[0], winning);
        lemma_sum_user_rewards_nonneg(bets.drop_first(), pool, winning);
    }
}

/// The winners' gross shares never sum past the share of their combined
/// stake: flooring each claim separately only loses value.
proof fn lemma_sum_user_rewards_le(bets: Seq<int>, pool: int, winning: int)
    requires
        0 <= pool,
        0 < winning,
        forall|i: int| 0 <= i < bets.len() ==> bets[i] >= 0,
    ensures
        sum_user_rewards(bets, pool, winning) <= spec_user_reward(pool, sum_of(bets), winning),
    decreases bets.len(),
{
    if bets.len() == 0 {
        lemma_div_pos_is_pos(0, winning);
        assert(pool * 0 == 0) by {
            lemma_mul_is_commutative(pool, 0);
        }
    } else {
        let rest = bets.drop_first();
        lemma_sum_user_rewards_le(rest, pool, winning);
        lemma_sum_nonneg(rest);
        lemma_mul_nonnegative(pool, bets[0]);
        lemma_mul_nonnegative(pool, sum_of(rest));
        lemma_div_add_le(pool * bets[0], pool * sum_of(rest), winning);
        assert(pool * bets[0] + pool * sum_of(rest) == pool * (bets[0] + sum_of(rest))) by {
            lemma_mul_is_distributive_add(pool, bets[0], sum_of(rest));
        }
    }
}

/// When the winning bets make up the whole winning side, their gross shares
/// sum to at most the pool itself.
proof fn lemma_sum_user_rewards_le_pool(bets: Seq<int>, pool: int, winning: int)
    requires
        0 <= pool,
        0 < winning,
        sum_of(bets) == winning,
        forall|i: int| 0 <= i < bets.len() ==> bets[i] >= 0,
    ensures
        sum_user_rewards(bets, pool, winning) <= pool,
{
    lemma_sum_user_rewards_le(bets, pool, winning);
    assert(pool * winning / winning == pool) by {
        lemma_mul_is_commutative(pool, winning);
        lemma_div_multiples_vanish(pool, winning);
    }
}

/// Splitting each payout into its three parts: the payouts sum equals the
/// gross shares minus the per-claim platform fees plus the referral fees.
proof fn lemma_sum_payouts_split(bets: Seq<int>, pool: int, winning: int, prate: int, rrate: int)
    ensures
        sum_winner_payouts(bets, pool, winning, prate, rrate) == sum_user_rewards(
            bets,
            pool,
            winning,
        ) - sum_user_platform_fees(bets, pool, winning, prate) + sum_user_ref_fees(
            bets,
            pool,
            winning,
            prate,
            rrate,
        ),
    decreases bets.len(),
{
    if bets.len() > 0 {
        lemma_sum_payouts_split(bets.drop_first(), pool, winning, prate, rrate);
    }
}

/// The per-claim platform fees never sum past the same rate taken on the
/// summed gross shares.
proof fn lemma_sum_platform_fees_le(bets: Seq<int>, pool: int, winning: int, prate: int)
    requires
        0 <= pool,
        0 < winning,
        0 <= prate,
        forall|i: int| 0 <= i < bets.len() ==> bets[i] >= 0,
    ensures
        sum_user_platform_fees(bets, pool, winning, prate) <= sum_user_rewards(bets, pool, winning)
            * prate / (FEE_RATE_DENOMINATOR as int),
    decreases bets.len(),
{
    let d = FEE_RATE_DENOMINATOR as int;
    if bets.len() == 0 {
        lemma_div_pos_is_pos(0, d);
        assert(0 * prate == 0) by {
            lemma_mul_is_commutative(0, prate);
        }
    } else {
        let rest = bets.drop_first();
        let u0 = spec_user_reward(pool, bets[0], winning);
        let su = sum_user_rewards(rest, pool, winning);
        lemma_sum_platform_fees_le(rest, pool, winning, prate);
        lemma_sum_user_rewards_nonneg(rest, pool, winning);
        lemma_mul_nonnegative(pool, bets[0]);
        lemma_div_pos_is_pos(pool * bets[0], winning);
        lemma_mul_nonnegative(u0, prate);
        lemma_mul_nonnegative(su, prate);
        lemma_div_add_le(u0 * prate, su * prate, d);
        assert(u0 * prate + su * prate == (u0 + su) * prate) by {
            lemma_mul_is_distributive_add_other_way(prate, u0, su);
        }
    }
}

/// The per-claim referral fees never sum past the same rate taken on the
/// summed per-claim platform fees.
proof fn lemma_sum_ref_fees_le(bets: Seq<int>, pool: int, winning: int, prate: int, rrate: int)
    requires
        0 <= pool,
        0 < winning,
        0 <= prate,
        0 <= rrate,
        forall|i: int| 0 <= i < bets.len() ==> bets[i] >= 0,
    ensures
        sum_user_ref_fees(bets, pool, winning, prate, rrate) <= sum_user_platform_fees(
            bets,
            pool,
            winning,
            prate,
        ) * rrate / (FEE_RATE_DENOMINATOR as int),
    decreases bets.len(),
{
    let d = FEE_RATE_DENOMINATOR as int;
    if bets.len() == 0 {
        lemma_div_pos_is_pos(0, d);
        assert(0 * rrate == 0) by {
            lemma_mul_is_commutative(0, rrate);
        }
    } else {
        let rest = bets.drop_first();
        let u0 = spec_user_reward(pool, bets[0], winning);
        let pf0 = spec_user_platform_fee(pool, bets[0], winning, prate);
        let spf = sum_user_platform_fees(rest, pool, winning, prate);
        lemma_sum_ref_fees_le(rest, pool, winning, prate, rrate);
        lemma_sum_platform_fees_nonneg(rest, pool, winning, prate);
        lemma_mul_nonnegative(pool, bets[0]);
        lemma_div_pos_is_pos(pool * bets[0], winning);
        lemma_mul_nonnegative(u0, prate);
        lemma_div_pos_is_pos(u0 * prate, d);
        lemma_mul_nonnegative(pf0, rrate);
        lemma_mul_nonnegative(spf, rrate);
        lemma_div_add_le(pf0 * rrate, spf * rrate, d);
        assert(pf0 * rrate + spf * rrate == (pf0 + spf) * rrate) by {
            lemma_mul_is_distributive_add_other_way(rrate, pf0, spf);
        }
    }
}

/// Each per-claim platform fee is nonnegative, so their running sum is too.
proof fn lemma_sum_platform_fees_nonneg(bets: Seq<int>, pool: int, winning: int, prate: int)
    requires
        0 <= pool,
        0 < winning,
        0 <= prate,
        forall|i: int| 0 <= i < bets.len() ==> bets[i] >= 0,
    ensures
        sum_user_platform_fees(bets, pool, winning, prate) >= 0,
    decreases bets.len(),
{
    if bets.len() > 0 {
        let d = FEE_RATE_DENOMINATOR as int;
        lemma_mul_nonnegative(pool, bets[0]);
        lemma_div_pos_is_pos(pool * bets[0], winning);
        lemma_mul_nonnegative(spec_user_reward(pool, bets[0], winning), prate);
        lemma_div_pos_is_pos(spec_user_reward(pool, bets[0], winning) * prate, d);
        lemma_sum_platform_fees_nonneg(bets.drop_first(), pool, winning, prate);
    }
}

/// Flooring each claim's platform fee loses less than one unit per claim:
/// scaled by the denominator, the summed fees stay within `len` units of the
/// same rate taken on the summed gross shares.
proof fn lemma_sum_platform_fees_lower(bets: Seq<int>, pool: int, winning: int, prate: int)
    requires
        0 <= pool,
        0 < winning,
        0 <= prate,
        forall|i: int| 0 <= i < bets.len() ==> bets[i] >= 0,
    ensures
        (FEE_RATE_DENOMINATOR as int) * sum_user_platform_fees(bets, pool, winning, prate)
            >= sum_user_rewards(bets, pool, winning) * prate - bets.len() * (
        FEE_RATE_DENOMINATOR as int - 1),
    decreases bets.len(),
{
    let d = FEE_RATE_DENOMINATOR as int;
    if bets.len() == 0 {
        assert(0 * prate == 0) by {
            lemma_mul_is_commutative(0, prate);
        }
    } else {
        let rest = bets.drop_first();
        let u0 = spec_user_reward(pool, bets[0], winning);
        let su = sum_user_rewards(rest, pool, winning);
        lemma_sum_platform_fees_lower(rest, pool, winning, prate);
        // d * (u0 * prate / d) == u0 * prate - (u0 * prate) % d, and the
        // remainder stays below d.
        lemma_fundamental_div_mod(u0 * prate, d);
        lemma_mod_division_less_than_divisor(u0 * prate, d);
        assert((u0 + su) * prate == u0 * prate + su * prate) by {
            lemma_mul_is_distributive_add_other_way(prate, u0, su);
        }
        assert(d * (spec_user_platform_fee(pool, bets[0], winning, prate) + sum_user_platform_fees(
            rest,
            pool,
            winning,
            prate,
        )) == d * spec_user_platform_fee(pool, bets[0], winning, prate) + d
            * sum_user_platform_fees(rest, pool, winning, prate)) by {
            lemma_mul_is_distributive_add(
                d,
                spec_user_platform_fee(pool, bets[0], winning, prate),
                sum_user_platform_fees(rest, pool, winning, prate),
            );
        }
        assert(bets.len() * (d - 1) == (d - 1) + rest.len() * (d - 1)) by {
            lemma_mul_is_distributive_add_other_way(d - 1, 1, rest.len() as int);
        }
    }
}

/// LAW. Across one successful settlement, everything the engine ever asks
/// the host to pay out — every winner's net reward, every referral fee
/// credited by those claims, and the settlement-time treasury transfer —
/// stays within the pool, up to strictly less than one token unit of
/// flooring slack per winning bet. With a single winning bet the payouts
/// never exceed the pool at all, and the winners' own payouts (net rewards
/// plus referral fees) never exceed the pool whatever the number of bets.
pub proof fn law_settlement_conservation(
    pool: int,
    bets: Seq<int>,
    prate: int,
    rrate: int,
)
    requires
        0 <= pool,
        0 < sum_of(bets),
        sum_of(bets) <= pool,
        0 <= prate <= FEE_RATE_DENOMINATOR as int,
        0 <= rrate <= FEE_RATE_DENOMINATOR as int,
        forall|i: int| 0 <= i < bets.len() ==> bets[i] >= 0,
    ensures
        sum_winner_payouts(bets, pool, sum_of(bets), prate, rrate) <= pool,
        sum_winner_payouts(bets, pool, sum_of(bets), prate, rrate) + spec_real_platform_fee(
            pool,
            prate,
            rrate,
        ) < pool + bets.len(),
{
    let d = FEE_RATE_DENOMINATOR as int;
    let w = sum_of(bets);
    let n = bets.len() as int;
    let su = sum_user_rewards(bets, pool, w);
    let spf = sum_user_platform_fees(bets, pool, w, prate);
    let srf = sum_user_ref_fees(bets, pool, w, prate, rrate);
    let pf = spec_platform_fee(pool, prate);
    let rg = spec_global_ref_fee(pool, prate, rrate);

    lemma_sum_payouts_split(bets, pool, w, prate, rrate);
    lemma_sum_user_rewards_le_pool(bets, pool, w);
    lemma_sum_platform_fees_le(bets, pool, w, prate);
    lemma_sum_ref_fees_le(bets, pool, w, prate, rrate);
    lemma_sum_platform_fees_nonneg(bets, pool, w, prate);
    lemma_sum_user_rewards_nonneg(bets, pool, w);

    // First claim: payouts alone stay within the pool. The referral fees
    // are covered by the per-claim platform fees withheld from the winners.
    assert(srf <= spf) by {
        lemma_rate_fraction_le(spf, rrate, d);
        lemma_mul_nonnegative(su, prate);
        lemma_div_pos_is_pos(su * prate, d);
        lemma_mul_inequality(spf, su * prate / d, rrate);
        lemma_mul_is_commutative(spf, rrate);
        lemma_mul_is_commutative(su * prate / d, rrate);
        lemma_div_is_ordered(spf * rrate, (su * prate / d) * rrate, d);
        lemma_rate_fraction_le(su * prate / d, rrate, d);
    }

    // Second claim: add the settlement-time treasury transfer. The referral
    // fees stay within the settlement-time referral provision, ...
    assert(srf <= rg) by {
        // spf <= su * prate / d <= pool * prate / d == pf
        lemma_mul_inequality(su, pool, prate);
        lemma_div_is_ordered(su * prate, pool * prate, d);
        // hence srf <= spf * rrate / d <= pf * rrate / d == rg
        lemma_mul_nonnegative(su, prate);
        lemma_div_pos_is_pos(su * prate, d);
        lemma_mul_inequality(spf, pf, rrate);
        lemma_mul_is_commutative(spf, rrate);
        lemma_mul_is_commutative(pf, rrate);
        lemma_div_is_ordered(spf * rrate, pf * rrate, d);
    }

    // ... so it remains to bound su - spf + pf by pool + n - 1, scaled by d.
    lemma_sum_platform_fees_lower(bets, pool, w, prate);
    assert(d * pf <= pool * prate) by {
        lemma_fundamental_div_mod(pool * prate, d);
        lemma_mod_division_less_than_divisor(pool * prate, d);
    }
    assert(prate * (pool - su) <= d * (pool - su)) by {
        lemma_mul_inequality(prate, d, pool - su);
        lemma_mul_is_commutative(prate, pool - su);
        lemma_mul_is_commutative(d, pool - su);
    }
    assert(pool * prate - su * prate == prate * (pool - su)) by {
        lemma_mul_is_commutative(pool, prate);
        lemma_mul_is_commutative(su, prate);
        vstd::arithmetic::mul::lemma_mul_is_distributive_sub(prate, pool, su);
    }
    // Scaled by d: d*(su - spf + pf) <= d*su + prate*(pool - su) + n*(d-1)
    //                               <= d*pool + n*(d-1) < d*(pool + n).
    assert(d * (su - spf + pf) == d * su - d * spf + d * pf) by {
        lemma_mul_is_distributive_add(d, su - spf, pf);
        vstd::arithmetic::mul::lemma_mul_is_distributive_sub(d, su, spf);
    }
    assert(d * (pool - su) == d * pool - d * su) by {
        vstd::arithmetic::mul::lemma_mul_is_distributive_sub(d, pool, su);
    }
    assert(n * (d - 1) < n * d || n == 0) by {
        if n > 0 {
            lemma_mul_left_inequality_helper(n, d - 1, d);
        }
    }
    assert(d * (su - spf + pf) < d * pool + n * d);
    assert(d * pool + n * d == d * (pool + n)) by {
        lemma_mul_is_distributive_add(d, pool, n);
        lemma_mul_is_commutative(n, d);
    }
    assert(su - spf + pf < pool + n) by {
        if su - spf + pf >= pool + n {
            lemma_mul_inequality(pool + n, su - spf + pf, d);
            lemma_mul_is_commutative(pool + n, d);
            lemma_mul_is_commutative(su - spf + pf, d);
        }
    }
}

/// `n * (d - 1) < n * d` for positive `n`.
proof fn lemma_mul_left_inequality_helper(n: int, a: int, b: int)
    requires
        0 < n,
        a < b,
    ensures
        n * a < n * b,
{
    vstd::arithmetic::mul::lemma_mul_strict_inequality(a, b, n);
    lemma_mul_is_commutative(a, n);
    lemma_mul_is_commutative(b, n);
}

/// LAW. When the whole winning side belongs to one bet, nothing is lost to
/// flooring at all: the winner's net reward, their referral fee and the
/// settlement-time treasury transfer add up to exactly the pool. The
/// winner's gross share is the full pool, so the fee withheld from them at
/// claim time coincides with the settlement-time platform fee, and the
/// referral fee coincides with the referral provision.
pub proof fn law_sole_winner_conservation(pool: int, w: int, prate: int, rrate: int)
    requires
        0 < w <= pool,
        0 <= prate <= FEE_RATE_DENOMINATOR as int,
        0 <= rrate <= FEE_RATE_DENOMINATOR as int,
    ensures
        sum_winner_payouts(seq![w], pool, w, prate, rrate) + spec_real_platform_fee(
            pool,
            prate,
            rrate,
        ) == pool,
{
    assert(spec_user_reward(pool, w, w) == pool) by {
        lemma_mul_is_commutative(pool, w);
        lemma_div_multiples_vanish(pool, w);
    }
    assert(sum_winner_payouts(seq![w], pool, w, prate, rrate) == spec_user_net_reward(
        pool,
        w,
        w,
        prate,
    ) + spec_user_ref_fee(pool, w, w, prate, rrate)) by {
        let bets = seq![w];
        assert(bets.len() == 1);
        assert(bets[0] == w);
        assert(bets.drop_first() =~= Seq::<int>::empty());
        assert(sum_winner_payouts(bets.drop_first(), pool, w, prate, rrate) == 0);
    }
}

/// LAW. When a settlement lands on the ratio-below branch, the refunds owed
/// to the winning bets plus the losing pool sent to the treasury add up to
/// exactly the pool: nothing is created and nothing is left behind.
pub proof fn law_ratio_below_conservation(up: int, down: int, bets: Seq<int>, winner_is_up: bool)
    requires
        sum_of(bets) == (if winner_is_up {
            up
        } else {
            down
        }),
    ensures
        sum_of(bets) + (if winner_is_up {
            down
        } else {
            up
        }) == spec_pool(up, down),
{
}

} // verus!
