//! The state of a campaign as a mathematical value, and its invariant.

use vstd::prelude::*;
use crate::effect::Effect;
use crate::error::Failure;
use crate::ledger::{ledger_ok, total, Holding};
use crate::metadata::{Milestone, PlatformConfig};
use crate::principal::Principal;
use crate::status::Status;
use crate::timeline::{one_stamp_each, Stamp};

verus! {

/// Everything a campaign remembers between two operations.
#[verifier::ext_equal]
pub struct CampaignState {
    /// The creator. Present exactly when the campaign has been initialized.
    pub creator: Option<Principal>,
    /// The asset the campaign accepts.
    pub token: Option<Principal>,
    /// The target amount.
    pub goal: int,
    /// The last instant at which contributions are accepted.
    pub deadline: u64,
    /// The least amount accepted in one contribution or pledge.
    pub min_contribution: int,
    pub status: Status,
    /// What the campaign holds in custody according to its books.
    pub total_raised: int,
    /// The sum of the pledges that have not been collected.
    pub total_pledged: int,
    /// The platform fee, where one is charged.
    pub platform: Option<PlatformConfig>,
    /// Where rewards are minted on withdrawal, if anywhere.
    pub reward_nft_contract: Option<Principal>,
    /// The least time between two contributions of one principal, if any.
    pub cooldown: Option<u64>,
    /// Whether only whitelisted principals may contribute or pledge.
    pub whitelist_enabled: bool,
    pub whitelist: Set<Principal>,
    /// The contributors in order of first appearance, each with its balance.
    pub contributions: Seq<Holding>,
    /// The pledgers in order of first appearance, each with what it still owes.
    pub pledges: Seq<Holding>,
    /// What was contributed through each referrer.
    pub referrals: Seq<Holding>,
    /// When each contributor last contributed.
    pub contribution_times: Seq<Stamp>,
    pub title: Seq<char>,
    pub description: Seq<char>,
    pub socials: Seq<char>,
    pub roadmap: Seq<Milestone>,
}

impl CampaignState {
    /// The state before `initialize`.
    pub open spec fn vacant() -> CampaignState {
        CampaignState {
            creator: None,
            token: None,
            goal: 0,
            deadline: 0,
            min_contribution: 0,
            status: Status::Active,
            total_raised: 0,
            total_pledged: 0,
            platform: None,
            reward_nft_contract: None,
            cooldown: None,
            whitelist_enabled: false,
            whitelist: Set::empty(),
            contributions: Seq::empty(),
            pledges: Seq::empty(),
            referrals: Seq::empty(),
            contribution_times: Seq::empty(),
            title: Seq::empty(),
            description: Seq::empty(),
            socials: Seq::empty(),
            roadmap: Seq::empty(),
        }
    }

    /// Whether `initialize` has gone through.
    pub open spec fn initialized(self) -> bool {
        self.creator is Some
    }

    /// What holds of a campaign after every operation.
    ///
    /// The books balance: while the campaign is active, and after it was
    /// refunded, custody is the sum of the recorded contributions; once it
    /// has left `Active`, custody is zero; and the outstanding pledges sum to
    /// `total_pledged`. Custody and pledges together fit the ledger's range,
    /// so that collecting a pledge cannot overflow. A campaign that has not
    /// been initialized is active and holds nothing.
    pub open spec fn inv(self) -> bool {
        &&& self.initialized() ==> self.token is Some && self.goal > 0
        &&& !self.initialized() ==> self.status == Status::Active && self.total_raised == 0
        &&& self.platform matches Some(config) ==> config.fee_bps <= 10000
        &&& ledger_ok(self.contributions)
        &&& ledger_ok(self.pledges)
        &&& ledger_ok(self.referrals)
        &&& one_stamp_each(self.contribution_times)
        &&& 0 <= self.total_raised
        &&& 0 <= self.total_pledged
        &&& self.total_raised + self.total_pledged <= i128::MAX
        &&& self.total_pledged == total(self.pledges)
        &&& self.status != Status::Successful && self.status != Status::Cancelled
            ==> self.total_raised == total(self.contributions)
        &&& self.status != Status::Active ==> self.total_raised == 0
    }
}

/// What one operation makes of a state: the state it leaves, and either the
/// effects that belong to it or the reason why nothing happened.
pub struct Step {
    pub next: CampaignState,
    pub result: Result<Seq<Effect>, Failure>,
}

impl Step {
    /// The operation was refused: the state stays as it was.
    pub open spec fn refused(s: CampaignState, why: Failure) -> Step {
        Step { next: s, result: Err(why) }
    }

    /// The operation went through.
    pub open spec fn done(next: CampaignState, effects: Seq<Effect>) -> Step {
        Step { next, result: Ok(effects) }
    }

    /// Whether a state and a returned value are what this step prescribes.
    pub open spec fn agrees(self, next: CampaignState, r: Result<Vec<Effect>, Failure>) -> bool {
        &&& next == self.next
        &&& match r {
            Ok(effects) => self.result == Ok::<Seq<Effect>, Failure>(effects@),
            Err(why) => self.result == Err::<Seq<Effect>, Failure>(why),
        }
    }
}

} // verus!
