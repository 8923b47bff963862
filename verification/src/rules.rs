//! The rules of the campaign: what each operation makes of a state.
//!
//! Every operation is total. On any state and any arguments it either goes
//! through, with a next state and a list of effects, or it is refused, with
//! the state unchanged and the first reason that applies.

use vstd::prelude::*;
use crate::effect::{Effect, Event};
use crate::error::{Abort, ContractError, Failure};
use crate::ledger::{amount_of, cleared, credit, settle, Holding};
use crate::metadata::{Milestone, PlatformConfig};
use crate::principal::Principal;
use crate::state::{CampaignState, Step};
use crate::status::Status;
use crate::timeline::{last_seen, touch};

verus! {

/// The fee on `total` at `fee_bps` basis points, rounded down.
pub open spec fn platform_fee(total: int, fee_bps: int) -> int {
    total * fee_bps / 10000
}

/// The referrer that a contribution is attributed to: the one named, unless
/// the contributor named itself.
pub open spec fn credited_referrer(contributor: Principal, referral: Option<Principal>) -> Option<
    Principal,
> {
    match referral {
        Some(referrer) => if referrer != contributor {
            Some(referrer)
        } else {
            None
        },
        None => None,
    }
}

/// The payment that returns one balance, with its event. Nothing for an
/// empty balance.
pub open spec fn refund_of(h: Holding) -> Seq<Effect> {
    if h.amount > 0 {
        seq![
            Effect::Pay { to: h.who, amount: h.amount as i128 },
            Effect::Emit(Event::Refunded { contributor: h.who, amount: h.amount as i128 }),
        ]
    } else {
        Seq::empty()
    }
}

/// The payments that return every balance of `l`, in the order of `l`.
pub open spec fn refund_effects(l: Seq<Holding>) -> Seq<Effect>
    decreases l.len(),
{
    if l.len() == 0 {
        Seq::empty()
    } else {
        refund_effects(l.drop_last()) + refund_of(l.last())
    }
}

/// The mint for one contributor, with its event. Nothing for an empty
/// balance.
pub open spec fn reward_of(contract: Principal, h: Holding) -> Seq<Effect> {
    if h.amount > 0 {
        seq![Effect::Mint { contract, to: h.who }, Effect::Emit(Event::NftMinted { to: h.who })]
    } else {
        Seq::empty()
    }
}

/// One mint for every contributor with a balance, in the order of `l`.
pub open spec fn reward_effects(contract: Principal, l: Seq<Holding>) -> Seq<Effect>
    decreases l.len(),
{
    if l.len() == 0 {
        Seq::empty()
    } else {
        reward_effects(contract, l.drop_last()) + reward_of(contract, l.last())
    }
}

/// What was pulled of the pledge at position `i`: all of it where `pulled`
/// says so, nothing where it says otherwise or says nothing.
pub open spec fn pulled_amount(pledges: Seq<Holding>, pulled: Seq<bool>, i: int) -> int {
    if 0 <= i < pledges.len() && i < pulled.len() && pulled[i] {
        pledges[i].amount
    } else {
        0
    }
}

/// What was pulled of the first `n` pledges.
pub open spec fn collected_total(pledges: Seq<Holding>, pulled: Seq<bool>, n: int) -> int
    decreases n,
{
    if n <= 0 {
        0
    } else {
        collected_total(pledges, pulled, n - 1) + pulled_amount(pledges, pulled, n - 1)
    }
}

/// The contributions after what was pulled of the first `n` pledges was
/// added to the balances of their pledgers.
pub open spec fn collected_into(
    contributions: Seq<Holding>,
    pledges: Seq<Holding>,
    pulled: Seq<bool>,
    n: int,
) -> Seq<Holding>
    decreases n,
{
    if n <= 0 {
        contributions
    } else if pulled_amount(pledges, pulled, n - 1) > 0 {
        credit(
            collected_into(contributions, pledges, pulled, n - 1),
            pledges[n - 1].who,
            pledges[n - 1].amount,
        )
    } else {
        collected_into(contributions, pledges, pulled, n - 1)
    }
}

/// One inbound transfer for each of the first `n` pledges of which
/// something was pulled.
pub open spec fn collect_effects(pledges: Seq<Holding>, pulled: Seq<bool>, n: int) -> Seq<Effect>
    decreases n,
{
    if n <= 0 {
        Seq::empty()
    } else if pulled_amount(pledges, pulled, n - 1) > 0 {
        collect_effects(pledges, pulled, n - 1).push(
            Effect::Collect { from: pledges[n - 1].who, amount: pledges[n - 1].amount as i128 },
        )
    } else {
        collect_effects(pledges, pulled, n - 1)
    }
}

/// The pledges after collection: a pulled pledge is settled, the others
/// stay outstanding.
pub open spec fn outstanding(pledges: Seq<Holding>, pulled: Seq<bool>) -> Seq<Holding> {
    Seq::new(
        pledges.len(),
        |i: int|
            Holding { who: pledges[i].who, amount: pledges[i].amount - pulled_amount(pledges, pulled, i) },
    )
}

impl CampaignState {
    /// Whether `who` has to wait before contributing again.
    pub open spec fn rate_limited(self, who: Principal, now: u64) -> bool {
        match (self.cooldown, last_seen(self.contribution_times, who)) {
            (Some(cooldown), Some(last)) => now < last + cooldown,
            _ => false,
        }
    }

    /// Why the caller may not act for `principal` on this campaign now, if
    /// it may not: the checks that every operation but `initialize` and
    /// `collect_pledges` starts with.
    pub open spec fn gate(self, caller: Principal, principal: Option<Principal>) -> Option<Abort> {
        if !self.initialized() {
            Some(Abort::NotInitialized)
        } else if principal != Some(caller) {
            Some(Abort::Unauthorized)
        } else if self.status != Status::Active {
            Some(Abort::NotActive)
        } else {
            None
        }
    }

    /// Why a contribution or a pledge of `amount` by `who` is not accepted
    /// at `now`, if it is not, as far as both are judged alike.
    pub open spec fn funding_refusal(self, caller: Principal, who: Principal, amount: i128, now: u64)
        -> Option<Failure> {
        if let Some(abort) = self.gate(caller, Some(who)) {
            Some(Failure::Aborted(abort))
        } else if self.whitelist_enabled && !self.whitelist.contains(who) {
            Some(Failure::Aborted(Abort::NotWhitelisted))
        } else if amount <= 0 || amount < self.min_contribution {
            Some(Failure::Rejected(ContractError::InvalidAmount))
        } else if now > self.deadline {
            Some(Failure::Rejected(ContractError::CampaignEnded))
        } else {
            None
        }
    }

    // ── initialize ──────────────────────────────────────────────────────

    /// Why a campaign cannot be set up, if it cannot. In this order: it has
    /// been set up before; the caller does not act for the creator; the goal
    /// is not positive; the deadline is not after `now`; the platform fee
    /// exceeds 100%.
    pub open spec fn initialize_refusal(
        self,
        caller: Principal,
        creator: Principal,
        goal: i128,
        deadline: u64,
        platform: Option<PlatformConfig>,
        now: u64,
    ) -> Option<Failure> {
        if self.initialized() {
            Some(Failure::Rejected(ContractError::AlreadyInitialized))
        } else if caller != creator {
            Some(Failure::Aborted(Abort::Unauthorized))
        } else if goal <= 0 {
            Some(Failure::Rejected(ContractError::InvalidGoal))
        } else if deadline <= now {
            Some(Failure::Rejected(ContractError::InvalidDeadline))
        } else if platform matches Some(config) && config.fee_bps > 10000 {
            Some(Failure::Aborted(Abort::FeeTooHigh))
        } else {
            None
        }
    }

    /// The campaign as `initialize` sets it up: active, with nothing raised
    /// and empty ledgers.
    pub open spec fn fresh(
        creator: Principal,
        token: Principal,
        goal: i128,
        deadline: u64,
        min_contribution: i128,
        title: Seq<char>,
        description: Seq<char>,
        platform: Option<PlatformConfig>,
    ) -> CampaignState {
        CampaignState {
            creator: Some(creator),
            token: Some(token),
            goal: goal as int,
            deadline,
            min_contribution: min_contribution as int,
            platform,
            title,
            description,
            ..CampaignState::vacant()
        }
    }

    /// What `initialize` makes of this state. It has no effects.
    pub open spec fn initialize(
        self,
        caller: Principal,
        creator: Principal,
        token: Principal,
        goal: i128,
        deadline: u64,
        min_contribution: i128,
        title: Seq<char>,
        description: Seq<char>,
        platform: Option<PlatformConfig>,
        now: u64,
    ) -> Step {
        match self.initialize_refusal(caller, creator, goal, deadline, platform, now) {
            Some(why) => Step::refused(self, why),
            None => Step::done(
                CampaignState::fresh(
                    creator,
                    token,
                    goal,
                    deadline,
                    min_contribution,
                    title,
                    description,
                    platform,
                ),
                Seq::empty(),
            ),
        }
    }

    // ── contribute ──────────────────────────────────────────────────────

    /// Why a contribution is not accepted, if it is not. In this order:
    /// what refuses a pledge as well; the contributor is within its
    /// cooldown; custody and pledges would together leave the 128-bit range;
    /// the referrer's tally would.
    pub open spec fn contribute_refusal(
        self,
        caller: Principal,
        contributor: Principal,
        amount: i128,
        referral: Option<Principal>,
        now: u64,
    ) -> Option<Failure> {
        if let Some(why) = self.funding_refusal(caller, contributor, amount, now) {
            Some(why)
        } else if self.rate_limited(contributor, now) {
            Some(Failure::Rejected(ContractError::RateLimitExceeded))
        } else if self.total_raised + self.total_pledged + amount > i128::MAX {
            Some(Failure::Rejected(ContractError::Overflow))
        } else if credited_referrer(contributor, referral) matches Some(referrer) && amount_of(
            self.referrals,
            referrer,
        ) + amount > i128::MAX {
            Some(Failure::Rejected(ContractError::Overflow))
        } else {
            None
        }
    }

    /// The effects of a contribution: the transfer into custody, its event,
    /// and the referral event where a referrer is credited.
    pub open spec fn contribute_effects(
        contributor: Principal,
        amount: i128,
        referral: Option<Principal>,
    ) -> Seq<Effect> {
        let paid_in = seq![
            Effect::Collect { from: contributor, amount },
            Effect::Emit(Event::Contributed { contributor, amount }),
        ];
        match credited_referrer(contributor, referral) {
            Some(referrer) => paid_in.push(
                Effect::Emit(Event::Referral { referrer, contributor, amount }),
            ),
            None => paid_in,
        }
    }

    /// What `contribute` makes of this state: the amount is added to the
    /// contributor's balance and to custody, the time is noted, and the
    /// referrer's tally grows where one is credited.
    pub open spec fn contribute(
        self,
        caller: Principal,
        contributor: Principal,
        amount: i128,
        referral: Option<Principal>,
        now: u64,
    ) -> Step {
        match self.contribute_refusal(caller, contributor, amount, referral, now) {
            Some(why) => Step::refused(self, why),
            None => Step::done(
                CampaignState {
                    total_raised: self.total_raised + amount,
                    contributions: credit(self.contributions, contributor, amount as int),
                    contribution_times: touch(self.contribution_times, contributor, now),
                    referrals: match credited_referrer(contributor, referral) {
                        Some(referrer) => credit(self.referrals, referrer, amount as int),
                        None => self.referrals,
                    },
                    ..self
                },
                Self::contribute_effects(contributor, amount, referral),
            ),
        }
    }

    // ── pledge ──────────────────────────────────────────────────────────

    /// Why a pledge is not accepted, if it is not: what refuses a
    /// contribution as well, or custody and pledges would together leave the
    /// 128-bit range. A pledge is not rate-limited.
    pub open spec fn pledge_refusal(self, caller: Principal, pledger: Principal, amount: i128, now: u64)
        -> Option<Failure> {
        if let Some(why) = self.funding_refusal(caller, pledger, amount, now) {
            Some(why)
        } else if self.total_raised + self.total_pledged + amount > i128::MAX {
            Some(Failure::Rejected(ContractError::Overflow))
        } else {
            None
        }
    }

    /// What `pledge` makes of this state: the amount is added to what the
    /// pledger owes and to the pledged total. No funds move.
    pub open spec fn pledge(self, caller: Principal, pledger: Principal, amount: i128, now: u64)
        -> Step {
        match self.pledge_refusal(caller, pledger, amount, now) {
            Some(why) => Step::refused(self, why),
            None => Step::done(
                CampaignState {
                    total_pledged: self.total_pledged + amount,
                    pledges: credit(self.pledges, pledger, amount as int),
                    ..self
                },
                seq![Effect::Emit(Event::Pledged { pledger, amount })],
            ),
        }
    }

    // ── collect_pledges ─────────────────────────────────────────────────

    /// Why the pledges cannot be collected at `now`, if they cannot. In this
    /// order: the campaign is not initialized; it is not active; the
    /// deadline has not passed; custody and pledges together fall short of
    /// the goal.
    pub open spec fn collect_refusal(self, now: u64) -> Option<Failure> {
        if !self.initialized() {
            Some(Failure::Aborted(Abort::NotInitialized))
        } else if self.status != Status::Active {
            Some(Failure::Aborted(Abort::NotActive))
        } else if now <= self.deadline {
            Some(Failure::Rejected(ContractError::CampaignStillActive))
        } else if self.total_raised + self.total_pledged < self.goal {
            Some(Failure::Rejected(ContractError::GoalNotReached))
        } else {
            None
        }
    }

    /// What `collect_pledges` makes of this state, given which transfers
    /// went through: each pulled pledge moves from what its pledger owes to
    /// its balance, and from the pledged total to custody.
    pub open spec fn collect_pledges(self, now: u64, pulled: Seq<bool>) -> Step {
        let n = self.pledges.len() as int;
        let sum = collected_total(self.pledges, pulled, n);
        match self.collect_refusal(now) {
            Some(why) => Step::refused(self, why),
            None => Step::done(
                CampaignState {
                    total_raised: self.total_raised + sum,
                    total_pledged: self.total_pledged - sum,
                    contributions: collected_into(self.contributions, self.pledges, pulled, n),
                    pledges: outstanding(self.pledges, pulled),
                    ..self
                },
                collect_effects(self.pledges, pulled, n).push(
                    Effect::Emit(Event::PledgesCollected { amount: sum as i128 }),
                ),
            ),
        }
    }

    // ── withdraw ────────────────────────────────────────────────────────

    /// Why the funds cannot be withdrawn at `now`, if they cannot. In this
    /// order: the campaign is not initialized; the caller does not act for
    /// the creator; the campaign is not active; the deadline has not passed;
    /// the goal was not reached.
    pub open spec fn withdraw_refusal(self, caller: Principal, now: u64) -> Option<Failure> {
        if let Some(abort) = self.gate(caller, self.creator) {
            Some(Failure::Aborted(abort))
        } else if now <= self.deadline {
            Some(Failure::Rejected(ContractError::CampaignStillActive))
        } else if self.total_raised < self.goal {
            Some(Failure::Rejected(ContractError::GoalNotReached))
        } else {
            None
        }
    }

    /// The fee that a withdrawal sends to the platform: nothing without a
    /// platform.
    pub open spec fn fee(self) -> int {
        match self.platform {
            Some(config) => platform_fee(self.total_raised, config.fee_bps as int),
            None => 0,
        }
    }

    /// The payments of a withdrawal: the fee to the platform, where there
    /// is one, then the rest to the creator.
    pub open spec fn payout_effects(self) -> Seq<Effect> {
        let creator = self.creator->0;
        let settled = seq![
            Effect::Pay { to: creator, amount: (self.total_raised - self.fee()) as i128 },
            Effect::Emit(Event::Withdrawn { creator, amount: self.total_raised as i128 }),
        ];
        match self.platform {
            Some(config) => seq![
                Effect::Pay { to: config.address, amount: self.fee() as i128 },
                Effect::Emit(
                    Event::FeeTransferred { platform: config.address, fee: self.fee() as i128 },
                ),
            ] + settled,
            None => settled,
        }
    }

    /// The mints of a withdrawal: one for every contributor with a balance,
    /// where a reward contract is set.
    pub open spec fn mint_effects(self) -> Seq<Effect> {
        match self.reward_nft_contract {
            Some(contract) => reward_effects(contract, self.contributions),
            None => Seq::empty(),
        }
    }

    /// What `withdraw` makes of this state: custody is emptied and the
    /// campaign is `Successful`. The balances stay as a record.
    pub open spec fn withdraw(self, caller: Principal, now: u64) -> Step {
        match self.withdraw_refusal(caller, now) {
            Some(why) => Step::refused(self, why),
            None => Step::done(
                CampaignState { total_raised: 0, status: Status::Successful, ..self },
                self.payout_effects() + self.mint_effects(),
            ),
        }
    }

    // ── refund ──────────────────────────────────────────────────────────

    /// Why `caller` may not have the balance of `principal` refunded at
    /// `now`, if it may not. In this order: the campaign is not initialized;
    /// the caller does not act for `principal`; the campaign is not active;
    /// the deadline has not passed; the goal was reached.
    pub open spec fn refund_refusal(self, caller: Principal, principal: Option<Principal>, now: u64)
        -> Option<Failure> {
        if let Some(abort) = self.gate(caller, principal) {
            Some(Failure::Aborted(abort))
        } else if now <= self.deadline {
            Some(Failure::Rejected(ContractError::CampaignStillActive))
        } else if self.total_raised >= self.goal {
            Some(Failure::Rejected(ContractError::GoalReached))
        } else {
            None
        }
    }

    /// What the batch refund makes of this state: every balance is paid
    /// back and set to zero, custody is emptied and the campaign is
    /// `Refunded`. Only the creator can ask for it.
    pub open spec fn refund(self, caller: Principal, now: u64) -> Step {
        match self.refund_refusal(caller, self.creator, now) {
            Some(why) => Step::refused(self, why),
            None => Step::done(
                CampaignState {
                    total_raised: 0,
                    status: Status::Refunded,
                    contributions: cleared(self.contributions),
                    ..self
                },
                refund_effects(self.contributions),
            ),
        }
    }

    /// What the pull refund makes of this state: the balance of
    /// `contributor` is paid back and set to zero, and custody falls by it;
    /// when custody is empty the campaign is `Refunded`. Without a balance
    /// it goes through and changes nothing.
    pub open spec fn refund_single(self, caller: Principal, contributor: Principal, now: u64)
        -> Step {
        let amount = amount_of(self.contributions, contributor);
        match self.refund_refusal(caller, Some(contributor), now) {
            Some(why) => Step::refused(self, why),
            None => if amount == 0 {
                Step::done(self, Seq::empty())
            } else {
                Step::done(
                    CampaignState {
                        total_raised: self.total_raised - amount,
                        status: if self.total_raised - amount == 0 {
                            Status::Refunded
                        } else {
                            Status::Active
                        },
                        contributions: settle(self.contributions, contributor),
                        ..self
                    },
                    refund_of(Holding { who: contributor, amount }),
                )
            },
        }
    }

    // ── metadata, roadmap, whitelist, options ───────────────────────────

    /// What `update_metadata` makes of this state: each text is replaced
    /// where a new one is given. Only the creator of an active campaign can
    /// do this.
    pub open spec fn update_metadata(
        self,
        caller: Principal,
        title: Option<Seq<char>>,
        description: Option<Seq<char>>,
        socials: Option<Seq<char>>,
    ) -> Step {
        match self.gate(caller, self.creator) {
            Some(abort) => Step::refused(self, Failure::Aborted(abort)),
            None => Step::done(
                CampaignState {
                    title: title.unwrap_or(self.title),
                    description: description.unwrap_or(self.description),
                    socials: socials.unwrap_or(self.socials),
                    ..self
                },
                seq![
                    Effect::Emit(
                        Event::MetadataUpdated {
                            title: title is Some,
                            description: description is Some,
                            socials: socials is Some,
                        },
                    ),
                ],
            ),
        }
    }

    /// What `add_roadmap_item` makes of this state: the item is appended.
    /// Only the creator of an active campaign can do this, with a date after
    /// `now` and a description that is not empty.
    pub open spec fn add_roadmap_item(self, caller: Principal, date: u64, description: Seq<char>, now: u64)
        -> Step {
        if let Some(abort) = self.gate(caller, self.creator) {
            Step::refused(self, Failure::Aborted(abort))
        } else if date <= now {
            Step::refused(self, Failure::Aborted(Abort::RoadmapDateNotInFuture))
        } else if description.len() == 0 {
            Step::refused(self, Failure::Aborted(Abort::EmptyDescription))
        } else {
            Step::done(
                CampaignState { roadmap: self.roadmap.push(Milestone { date, description }), ..self },
                seq![Effect::Emit(Event::RoadmapItemAdded { date })],
            )
        }
    }

    /// What `add_to_whitelist` makes of this state: the addresses join the
    /// whitelist, which is in force from then on. Only the creator of an
    /// active campaign can do this, with at least one address.
    pub open spec fn add_to_whitelist(self, caller: Principal, addresses: Seq<Principal>) -> Step {
        if let Some(abort) = self.gate(caller, self.creator) {
            Step::refused(self, Failure::Aborted(abort))
        } else if addresses.len() == 0 {
            Step::refused(self, Failure::Aborted(Abort::EmptyWhitelist))
        } else {
            Step::done(
                CampaignState {
                    whitelist_enabled: true,
                    whitelist: self.whitelist.union(addresses.to_set()),
                    ..self
                },
                Seq::empty(),
            )
        }
    }

    /// What `set_rate_limit` makes of this state. Only the creator of an
    /// active campaign can do this.
    pub open spec fn set_rate_limit(self, caller: Principal, cooldown: Option<u64>) -> Step {
        match self.gate(caller, self.creator) {
            Some(abort) => Step::refused(self, Failure::Aborted(abort)),
            None => Step::done(CampaignState { cooldown, ..self }, Seq::empty()),
        }
    }

    /// What `set_reward_nft_contract` makes of this state. Only the creator
    /// of an active campaign can do this.
    pub open spec fn set_reward_nft_contract(self, caller: Principal, contract: Option<Principal>)
        -> Step {
        match self.gate(caller, self.creator) {
            Some(abort) => Step::refused(self, Failure::Aborted(abort)),
            None => Step::done(CampaignState { reward_nft_contract: contract, ..self }, Seq::empty()),
        }
    }
}

} // verus!
