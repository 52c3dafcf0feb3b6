//! Pari-mutuel prediction-market settlement and reward-distribution engine.
//!
//! Participants wager a fungible token on the direction a reference price
//! moves over a fixed window (an "arena"); at resolution, losers' stakes fund
//! winners' payouts minus a platform fee, part of which is redirected to
//! referrers. Wager totals also accrue into rolling ranking epochs (hour, day,
//! week) and progressive milestone buckets, from which tiered rewards are
//! claimed exactly once per record.
//!
//! The crate holds the accounting and state-machine logic only: each operation
//! validates its preconditions, mutates the affected records all-or-nothing,
//! and reports which amounts the hosting environment must move where. Actual
//! token transfers, collectible minting, identity authentication and price
//! retrieval belong to the host, which hands this library plain values.

use vstd::prelude::*;

pub mod arena;
pub mod bundle;
pub mod errors;
pub mod fees;
pub mod milestone;
pub mod ranking;
pub mod referral;
pub mod states;
pub mod wager;

verus! {

/// Fee rates are expressed in parts per ten thousand of this denominator.
pub const FEE_RATE_DENOMINATOR: u64 = 10000;

/// Platform fee rate installed by `initialize` (10%).
pub const INITIAL_PLATFORM_FEE_RATE: u64 = 1000;

/// Referral fee rate installed by `initialize` (10% of the platform fee).
pub const INITIAL_REF_FEE_RATE: u64 = 1000;

/// Length of an hour ranking epoch, in seconds.
pub const ONE_HOUR: u64 = 3600;

/// Length of a day ranking epoch, in seconds.
pub const ONE_DAY: u64 = 86400;

/// Length of a week ranking epoch, in seconds.
pub const ONE_WEEK: u64 = 604800;

/// Length of a milestone bucket (the "eight-box"), in seconds.
pub const EIGHT_HOUR: u64 = 28800;

} // verus!
