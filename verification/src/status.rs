//! The lifecycle status of a campaign.

use vstd::prelude::*;

verus! {

/// Where a campaign stands in its lifecycle.
#[derive(Clone, Copy, Debug, PartialEq, Eq, Structural)]
pub enum Status {
    /// The campaign accepts contributions and can still be settled.
    Active,
    /// The goal was met and the creator has withdrawn the funds.
    Successful,
    /// The goal was not met and every contribution has been returned.
    Refunded,
    /// The campaign was cancelled by its creator.
    Cancelled,
}

impl Status {
    /// A status other than `Active` is final.
    pub open spec fn is_terminal(self) -> bool {
        self != Status::Active
    }

    /// Whether the campaign can still change.
    pub fn is_active(&self) -> (r: bool)
        ensures
            r == (*self == Status::Active),
            r == !self.is_terminal(),
    {
        *self == Status::Active
    }
}

} // verus!
