//! The error taxonomy of the engine.
//!
//! Every operation is all-or-nothing: when a function returns one of these
//! errors it has changed none of the records handed to it and has asked the
//! host to move no funds.

use vstd::prelude::*;

verus! {

/// Why an operation was refused.
#[derive(Clone, Copy, Debug, PartialEq, Eq, Structural)]
pub enum BettingError {
    /// The caller is not the configured administrator.
    NotAllowedAuthority,
    /// A parameter is out of its documented range.
    InvalidParameter,
    /// The caller's bet is not on the winning side.
    BetResultMisMatch,
    /// The record's reward was already claimed.
    AlreadyClaimed,
    /// The arena has left the state this action needs.
    FinishedArena,
    /// The arena is not yet settled.
    ArenaNotFinished,
    /// The arena has not been started.
    ArenaNotStarted,
    /// The arena is not open for wagers.
    ArenaNotOpened,
    /// The arena was not cancelled, so stakes cannot be returned.
    ArenaNotCancelled,
    /// One side of the market holds no stake, so it cannot be settled.
    ArenaFailed,
    /// The supplied referrer differs from the one bound earlier.
    ReferrerMisMatch,
    /// The referral proof hash does not match the supplied pair.
    InvalidReferrerHash,
    /// The hour epoch record does not cover the current time.
    IncorrectHour,
    /// The day epoch record does not cover the current time.
    IncorrectDay,
    /// The week epoch record does not cover the current time.
    IncorrectWeek,
    /// The accrued stake does not qualify for the lowest published tier.
    UnableToClaim,
    /// A bet record for this participant and arena already exists.
    BetAlreadyPlaced,
    /// A fee or payout computation left the machine's integer range.
    ArithmeticOverflow,
}

} // verus!
