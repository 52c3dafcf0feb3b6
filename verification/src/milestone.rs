//! The milestone reward resolver (the "eight-box").
//!
//! Four ascending stake thresholds define milestone tiers 0 to 3 within one
//! bucket. Each tier is claimed independently, exactly once, tracked by one
//! bit of the bucket's claimed bitmask; a claim grants a fixed loot bundle
//! variant.

use vstd::prelude::*;

use crate::errors::BettingError;
use crate::states::EightBoxState;

verus! {

/// The cumulative stake a milestone tier asks for.
pub open spec fn spec_eight_box_limit(tier: u8) -> u64 {
    if tier == 0 {
        20_000_000
    } else if tier == 1 {
        100_000_000
    } else if tier == 2 {
        400_000_000
    } else {
        1_000_000_000
    }
}

/// The stake threshold of milestone tier `tier`.
pub fn eight_box_limit(tier: u8) -> (r: u64)
    requires
        tier <= 3,
    ensures
        r == spec_eight_box_limit(tier),
{
    match tier {
        0 => 20_000_000,
        1 => 100_000_000,
        2 => 400_000_000,
        _ => 1_000_000_000,
    }
}

/// The loot bundle variant a milestone tier grants.
pub open spec fn spec_eight_box_bundle(tier: u8) -> u8 {
    if tier == 0 {
        0
    } else if tier == 1 {
        3
    } else if tier == 2 {
        4
    } else {
        5
    }
}

/// Whether bit `tier` of a claimed bitmask is set.
pub open spec fn spec_bit_claimed(status: u8, tier: u8) -> bool {
    status & (1u8 << tier) != 0
}

/// Why a milestone claim is refused, if it is.
pub open spec fn spec_eight_box_claim_error(state: EightBoxState, prize_id: u8) -> Option<
    BettingError,
> {
    if prize_id > 3 {
        Some(BettingError::InvalidParameter)
    } else if state.bet_amount < spec_eight_box_limit(prize_id) {
        Some(BettingError::UnableToClaim)
    } else if spec_bit_claimed(state.claimed_status, prize_id) {
        Some(BettingError::AlreadyClaimed)
    } else {
        None
    }
}

/// LAW. A milestone tier whose bit is already set never pays again:
/// whatever the bucket's stake, the outcome is an error, and
/// `claim_eight_box`'s contract then leaves the bucket untouched. Together
/// with a successful claim setting the tier's bit and never clearing any
/// other, each of the four tiers pays at most once per bucket.
pub proof fn law_milestone_is_exactly_once(state: EightBoxState, prize_id: u8)
    requires
        prize_id <= 3,
        spec_bit_claimed(state.claimed_status, prize_id),
    ensures
        spec_eight_box_claim_error(state, prize_id) is Some,
{
}

/// Claims milestone tier `prize_id` of one bucket exactly once, returning
/// the loot bundle variant to grant. Tiers are independent: any tier whose
/// threshold the bucket's stake meets can be claimed regardless of the
/// others, and a claimed bit is never cleared.
pub fn claim_eight_box(state: &mut EightBoxState, prize_id: u8) -> (r: Result<u8, BettingError>)
    ensures
        ({
            let err = spec_eight_box_claim_error(*old(state), prize_id);
            &&& (r is Err <==> err is Some)
            &&& (r is Err ==> r->Err_0 == err->0 && *final(state) == *old(state))
        }),
        r is Ok ==> r->Ok_0 == spec_eight_box_bundle(prize_id),
        r is Ok ==> *final(state) == (EightBoxState {
            claimed_status: old(state).claimed_status | (1u8 << prize_id),
            ..*old(state)
        }),
        r is Ok ==> spec_bit_claimed(final(state).claimed_status, prize_id),
        r is Ok ==> forall|t: u8|
            t < 8 && spec_bit_claimed(old(state).claimed_status, t)
                ==> #[trigger] spec_bit_claimed(final(state).claimed_status, t),
{
    if prize_id > 3 {
        return Err(BettingError::InvalidParameter);
    }
    if state.bet_amount < eight_box_limit(prize_id) {
        return Err(BettingError::UnableToClaim);
    }
    let mask = 1u8 << prize_id;
    if state.claimed_status & mask != 0 {
        return Err(BettingError::AlreadyClaimed);
    }
    let new_status = state.claimed_status | mask;
    proof {
        let s = state.claimed_status;
        assert((s | (1u8 << prize_id)) & (1u8 << prize_id) != 0) by (bit_vector)
            requires
                prize_id <= 3,
        ;
        assert(forall|t: u8|
            t < 8 && s & (1u8 << t) != 0 ==> #[trigger] ((s | (1u8 << prize_id)) & (1u8 << t))
                != 0) by (bit_vector);
    }
    state.claimed_status = new_status;
    Ok(match prize_id {
        0 => 0,
        1 => 3,
        2 => 4,
        _ => 5,
    })
}

} // verus!
