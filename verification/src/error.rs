//! The failures a campaign operation can report.
//!
//! There are two tiers. A [`ContractError`] is a condition that callers are
//! expected to anticipate and branch on: wrong timing, an unmet goal, a rate
//! limit, an overflow, a bad argument. An [`Abort`] is an integration error:
//! missing state, a caller without authority, a malformed configuration. In
//! both tiers the operation leaves the campaign exactly as it found it.

use vstd::prelude::*;

verus! {

/// A recoverable refusal: the caller may retry with other arguments or at
/// another time.
#[derive(Clone, Copy, Debug, PartialEq, Eq, Hash, Structural)]
pub enum ContractError {
    /// The campaign has already been initialized.
    AlreadyInitialized,
    /// The deadline has passed: no contribution or pledge is accepted.
    CampaignEnded,
    /// The deadline has not passed yet.
    CampaignStillActive,
    /// The funding goal was not reached.
    GoalNotReached,
    /// The funding goal was reached.
    GoalReached,
    /// The goal is not strictly positive.
    InvalidGoal,
    /// The deadline is not strictly in the future.
    InvalidDeadline,
    /// The amount is not positive or is below the campaign's minimum.
    InvalidAmount,
    /// The contributor's cooldown has not elapsed.
    RateLimitExceeded,
    /// An amount would no longer fit the ledger's 128-bit signed range.
    Overflow,
}

/// An unrecoverable refusal: the whole invocation is to be abandoned.
#[derive(Clone, Copy, Debug, PartialEq, Eq, Hash, Structural)]
pub enum Abort {
    /// The campaign has not been initialized.
    NotInitialized,
    /// The caller did not prove control of the principal the operation needs.
    Unauthorized,
    /// The campaign is no longer active.
    NotActive,
    /// The platform fee exceeds 100%.
    FeeTooHigh,
    /// A whitelist is in force and the principal is not on it.
    NotWhitelisted,
    /// An empty list of principals was offered for the whitelist.
    EmptyWhitelist,
    /// A roadmap item is not dated strictly in the future.
    RoadmapDateNotInFuture,
    /// A roadmap item has an empty description.
    EmptyDescription,
}

/// Why an operation left the campaign untouched.
#[derive(Clone, Copy, Debug, PartialEq, Eq, Hash, Structural)]
pub enum Failure {
    Rejected(ContractError),
    Aborted(Abort),
}

} // verus!
