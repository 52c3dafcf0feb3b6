//! The weighted random reward selector, used when a loot bundle is opened.
//!
//! A bundle variant fixes a draw count and a table of nine cumulative
//! thresholds over the selection modulus. Each draw reduces an externally
//! supplied seed plus the current time modulo the modulus and picks the
//! first table entry at or above the reduced value; the entry's position
//! maps one-to-one to a reward fragment variant (one-based). The seed is
//! only as unpredictable as the host makes it; the selection itself is a
//! pure function of seed and time.

use vstd::prelude::*;

use crate::errors::BettingError;

verus! {

/// The modulus every draw is reduced by.
pub const SELECTION_MODULUS: u64 = 10001;

/// How many reward draws a bundle variant grants.
pub open spec fn spec_bundle_reward_count(bundle_id: u8) -> u8 {
    if bundle_id == 0 || bundle_id == 2 || bundle_id == 4 {
        2
    } else {
        5
    }
}

/// How many reward draws bundle variant `bundle_id` grants.
pub fn bundle_reward_count(bundle_id: u8) -> (r: u8)
    requires
        bundle_id <= 5,
    ensures
        r == spec_bundle_reward_count(bundle_id),
{
    match bundle_id {
        0 | 2 | 4 => 2,
        _ => 5,
    }
}

/// The cumulative threshold table of a bundle variant, nine entries over
/// the selection modulus, richer variants weighting rare fragments higher.
pub open spec fn spec_bundle_rates(bundle_id: u8) -> Seq<u32> {
    if bundle_id <= 1 {
        seq![2250u32, 4500u32, 6750u32, 9000u32, 9330u32, 9660u32, 9900u32, 9950u32, 10000u32]
    } else if bundle_id <= 3 {
        seq![1500u32, 3000u32, 4500u32, 6000u32, 7300u32, 8600u32, 9900u32, 9950u32, 10000u32]
    } else {
        seq![800u32, 1600u32, 2400u32, 3200u32, 5300u32, 7400u32, 9500u32, 9750u32, 10000u32]
    }
}

/// The cumulative threshold table of bundle variant `bundle_id`.
pub fn bundle_rates(bundle_id: u8) -> (r: Vec<u32>)
    requires
        bundle_id <= 5,
    ensures
        r@ == spec_bundle_rates(bundle_id),
{
    let r: Vec<u32> = if bundle_id <= 1 {
        vec![2250, 4500, 6750, 9000, 9330, 9660, 9900, 9950, 10000]
    } else if bundle_id <= 3 {
        vec![1500, 3000, 4500, 6000, 7300, 8600, 9900, 9950, 10000]
    } else {
        vec![800, 1600, 2400, 3200, 5300, 7400, 9500, 9750, 10000]
    };
    proof {
        assert(r@ =~= spec_bundle_rates(bundle_id));
    }
    r
}

/// The first position in `table` at or above `rand_val`, or `table.len()`
/// when every entry is below it.
pub open spec fn spec_first_at_or_above(table: Seq<u32>, rand_val: u64) -> int
    decreases table.len(),
{
    if table.len() == 0 {
        0
    } else if rand_val <= table[0] {
        0
    } else {
        1 + spec_first_at_or_above(table.drop_first(), rand_val)
    }
}

/// The selected index of one draw: the first position at or above the
/// reduced value, defensively falling back to 0 when no entry qualifies.
pub open spec fn spec_select_index(table: Seq<u32>, rand_val: u64) -> int {
    if spec_first_at_or_above(table, rand_val) < table.len() {
        spec_first_at_or_above(table, rand_val)
    } else {
        0
    }
}

/// What `spec_first_at_or_above` points at: the smallest qualifying position.
pub proof fn lemma_first_at_or_above_characterization(table: Seq<u32>, rand_val: u64)
    ensures
        0 <= spec_first_at_or_above(table, rand_val) <= table.len(),
        spec_first_at_or_above(table, rand_val) < table.len() ==> rand_val <= table[
            spec_first_at_or_above(table, rand_val)
        ],
        forall|j: int| 0 <= j < spec_first_at_or_above(table, rand_val) ==> rand_val > table[j],
        spec_first_at_or_above(table, rand_val) == table.len() ==> forall|j: int|
            0 <= j < table.len() ==> rand_val > table[j],
    decreases table.len(),
{
    if table.len() > 0 && rand_val > table[0] {
        lemma_first_at_or_above_characterization(table.drop_first(), rand_val);
        assert forall|j: int|
            0 <= j < spec_first_at_or_above(table, rand_val) implies rand_val > table[j] by {
            if j > 0 {
                assert(table.drop_first()[j - 1] == table[j]);
            }
        }
    }
}

/// Selects the table index of one draw: the smallest position whose
/// threshold is at or above `rand_val`, falling back to 0.
pub fn select_fragment_index(table: &Vec<u32>, rand_val: u64) -> (r: usize)
    ensures
        r == spec_select_index(table@, rand_val),
{
    let mut i: usize = 0;
    while i < table.len()
        invariant
            i <= table@.len(),
            forall|j: int| 0 <= j < i ==> rand_val > table@[j],
        decreases table@.len() - i,
    {
        if rand_val <= table[i] as u64 {
            proof {
                lemma_first_at_or_above_characterization(table@, rand_val);
            }
            return i;
        }
        i = i + 1;
    }
    proof {
        lemma_first_at_or_above_characterization(table@, rand_val);
    }
    0
}

/// The one-based fragment variant one draw grants, as a pure function of
/// the bundle variant, the draw's seed and the time.
pub open spec fn spec_draw_fragment(bundle_id: u8, seed: u64, now: u64) -> u8 {
    (spec_select_index(spec_bundle_rates(bundle_id), ((seed + now) % (SELECTION_MODULUS as int))
        as u64) + 1) as u8
}

/// Why `open_bundle` refuses, if it does.
pub open spec fn spec_open_bundle_error(bundle_id: u8, seeds: Seq<u64>, now: u64) -> Option<
    BettingError,
> {
    if bundle_id > 5 {
        Some(BettingError::InvalidParameter)
    } else if seeds.len() < spec_bundle_reward_count(bundle_id) {
        Some(BettingError::InvalidParameter)
    } else if exists|i: int|
        0 <= i < spec_bundle_reward_count(bundle_id) && #[trigger] (seeds[i] + now) > u64::MAX {
        Some(BettingError::ArithmeticOverflow)
    } else {
        None
    }
}

/// Opens one loot bundle: performs the variant's fixed number of draws, one
/// externally supplied seed per draw, and returns the one-based fragment
/// variants to grant, in draw order. The bundle token itself is consumed by
/// the host afterwards.
pub fn open_bundle(bundle_id: u8, seeds: &Vec<u64>, now: u64) -> (r: Result<Vec<u8>, BettingError>)
    ensures
        ({
            let err = spec_open_bundle_error(bundle_id, seeds@, now);
            &&& (r is Err <==> err is Some)
            &&& (r is Err ==> r->Err_0 == err->0)
        }),
        r is Ok ==> r->Ok_0@.len() == spec_bundle_reward_count(bundle_id),
        r is Ok ==> forall|i: int|
            0 <= i < r->Ok_0@.len() ==> r->Ok_0@[i] == spec_draw_fragment(
                bundle_id,
                seeds@[i],
                now,
            ),
{
    if bundle_id > 5 {
        return Err(BettingError::InvalidParameter);
    }
    let count = bundle_reward_count(bundle_id) as usize;
    if seeds.len() < count {
        return Err(BettingError::InvalidParameter);
    }
    // Check every draw's seed before granting anything, so a late overflow
    // grants no partial bundle.
    let mut i: usize = 0;
    while i < count
        invariant
            i <= count,
            bundle_id <= 5,
            count == spec_bundle_reward_count(bundle_id),
            count <= seeds@.len(),
            forall|j: int| 0 <= j < i ==> #[trigger] (seeds@[j] + now) <= u64::MAX,
        decreases count - i,
    {
        if seeds[i].checked_add(now).is_none() {
            proof {
                assert(seeds@[i as int] + now > u64::MAX);
            }
            return Err(BettingError::ArithmeticOverflow);
        }
        i = i + 1;
    }
    let table = bundle_rates(bundle_id);
    let mut fragments: Vec<u8> = Vec::new();
    let mut k: usize = 0;
    while k < count
        invariant
            k <= count,
            bundle_id <= 5,
            count == spec_bundle_reward_count(bundle_id),
            count <= seeds@.len(),
            table@ == spec_bundle_rates(bundle_id),
            forall|j: int| 0 <= j < count ==> #[trigger] (seeds@[j] + now) <= u64::MAX,
            fragments@.len() == k,
            forall|j: int|
                0 <= j < k ==> fragments@[j] == spec_draw_fragment(bundle_id, seeds@[j], now),
        decreases count - k,
    {
        let rand_val = (seeds[k] + now) % SELECTION_MODULUS;
        let idx = select_fragment_index(&table, rand_val);
        proof {
            lemma_first_at_or_above_characterization(table@, rand_val);
        }
        fragments.push((idx + 1) as u8);
        k = k + 1;
    }
    Ok(fragments)
}

} // verus!
