//! The campaign as a value that operations act on.

use vstd::prelude::*;
use crate::effect::{Effect, Event};
use crate::error::{Abort, ContractError, Failure};
use crate::balance::{lemma_collected_into, lemma_collected_monotone, lemma_outstanding};
use crate::fee::fee_amount;
use crate::ledger::{amount_of, largest, lemma_amount_bounds, lemma_bounds, Entry, Ledger};
use crate::metadata::{milestones, CampaignInfo, PlatformConfig, RoadmapItem};
use crate::principal::Principal;
use crate::rules::{
    collect_effects, collected_into, collected_total, credited_referrer, outstanding,
    refund_effects, reward_effects,
};
use crate::state::CampaignState;
use crate::stats::{average, average_contribution, progress, progress_bps, CampaignStats};
use crate::status::Status;
use crate::timeline::Timeline;

verus! {

/// One crowdfunding campaign: its fixed record, its ledgers and its
/// presentation data.
///
/// The fields are open so that a host can store a campaign and load it
/// again. A value that was put together by hand is to be tested with
/// [`CrowdfundContract::is_well_formed`] before any operation is called on
/// it.
pub struct CrowdfundContract {
    /// The creator. Present exactly when the campaign has been initialized.
    pub creator: Option<Principal>,
    /// The asset the campaign accepts.
    pub token: Option<Principal>,
    pub goal: i128,
    pub deadline: u64,
    pub min_contribution: i128,
    pub status: Status,
    pub total_raised: i128,
    pub total_pledged: i128,
    pub platform_config: Option<PlatformConfig>,
    pub reward_nft_contract: Option<Principal>,
    pub cooldown: Option<u64>,
    pub whitelist_enabled: bool,
    pub whitelist: Vec<Principal>,
    pub contributions: Ledger,
    pub pledges: Ledger,
    pub referrals: Ledger,
    pub contribution_times: Timeline,
    pub title: String,
    pub description: String,
    pub socials: String,
    pub roadmap: Vec<RoadmapItem>,
}

impl View for CrowdfundContract {
    type V = CampaignState;

    open spec fn view(&self) -> CampaignState {
        CampaignState {
            creator: self.creator,
            token: self.token,
            goal: self.goal as int,
            deadline: self.deadline,
            min_contribution: self.min_contribution as int,
            status: self.status,
            total_raised: self.total_raised as int,
            total_pledged: self.total_pledged as int,
            platform: self.platform_config,
            reward_nft_contract: self.reward_nft_contract,
            cooldown: self.cooldown,
            whitelist_enabled: self.whitelist_enabled,
            whitelist: self.whitelist@.to_set(),
            contributions: self.contributions@,
            pledges: self.pledges@,
            referrals: self.referrals@,
            contribution_times: self.contribution_times@,
            title: self.title@,
            description: self.description@,
            socials: self.socials@,
            roadmap: milestones(self.roadmap@),
        }
    }
}

/// The version of the campaign's rules. It changes whenever they do.
pub const CONTRACT_VERSION: u32 = 2;

/// The text that an optional string stands for.
pub open spec fn text(s: Option<String>) -> Option<Seq<char>> {
    match s {
        Some(s) => Some(s@),
        None => None,
    }
}

/// A sequence followed by another holds what either holds.
proof fn lemma_concat_to_set(a: Seq<Principal>, b: Seq<Principal>)
    ensures
        (a + b).to_set() == a.to_set().union(b.to_set()),
{
    let ab = a + b;
    assert forall|p: Principal| ab.contains(p) <==> a.contains(p) || b.contains(p) by {
        if a.contains(p) {
            let i = choose|i: int| 0 <= i < a.len() && a[i] == p;
            assert(ab[i] == p);
        }
        if b.contains(p) {
            let i = choose|i: int| 0 <= i < b.len() && b[i] == p;
            assert(ab[a.len() + i] == p);
        }
    }
}

/// The referrer that a contribution is attributed to.
fn referrer_of(contributor: Principal, referral: Option<Principal>) -> (r: Option<Principal>)
    ensures
        r == credited_referrer(contributor, referral),
{
    match referral {
        Some(referrer) => if referrer != contributor {
            Some(referrer)
        } else {
            None
        },
        None => None,
    }
}

/// Appends to `effects` the payments that return every balance of `l`.
fn push_refunds(effects: &mut Vec<Effect>, l: &Ledger)
    requires
        l.wf(),
    ensures
        final(effects)@ == old(effects)@ + refund_effects(l@),
{
    let ghost before = effects@;
    let n: usize = l.len();
    let mut i: usize = 0;
    while i < n
        invariant
            i <= n,
            n == l@.len(),
            effects@ == before + refund_effects(l@.take(i as int)),
        decreases n - i,
    {
        let e = l.entry(i);
        assert(l@.take(i + 1).drop_last() =~= l@.take(i as int));
        if e.amount > 0 {
            effects.push(Effect::Pay { to: e.who, amount: e.amount });
            effects.push(Effect::Emit(Event::Refunded { contributor: e.who, amount: e.amount }));
        }
        i += 1;
    }
    assert(l@.take(n as int) =~= l@);
}

/// Appends to `effects` one mint for every principal with a balance in `l`.
fn push_rewards(effects: &mut Vec<Effect>, contract: Principal, l: &Ledger)
    requires
        l.wf(),
    ensures
        final(effects)@ == old(effects)@ + reward_effects(contract, l@),
{
    let ghost before = effects@;
    let n: usize = l.len();
    let mut i: usize = 0;
    while i < n
        invariant
            i <= n,
            n == l@.len(),
            effects@ == before + reward_effects(contract, l@.take(i as int)),
        decreases n - i,
    {
        let e = l.entry(i);
        assert(l@.take(i + 1).drop_last() =~= l@.take(i as int));
        if e.amount > 0 {
            effects.push(Effect::Mint { contract, to: e.who });
            effects.push(Effect::Emit(Event::NftMinted { to: e.who }));
        }
        i += 1;
    }
    assert(l@.take(n as int) =~= l@);
}

impl CrowdfundContract {
    /// The books of the campaign balance.
    pub open spec fn wf(&self) -> bool {
        self@.inv()
    }

    /// A campaign that has not been initialized.
    pub fn new() -> (r: CrowdfundContract)
        ensures
            r.wf(),
            r@ == CampaignState::vacant(),
    {
        CrowdfundContract {
            creator: None,
            token: None,
            goal: 0,
            deadline: 0,
            min_contribution: 0,
            status: Status::Active,
            total_raised: 0,
            total_pledged: 0,
            platform_config: None,
            reward_nft_contract: None,
            cooldown: None,
            whitelist_enabled: false,
            whitelist: Vec::new(),
            contributions: Ledger::new(),
            pledges: Ledger::new(),
            referrals: Ledger::new(),
            contribution_times: Timeline::new(),
            title: String::new(),
            description: String::new(),
            socials: String::new(),
            roadmap: Vec::new(),
        }
    }

    /// Whether `initialize` has gone through.
    pub fn is_initialized(&self) -> (r: bool)
        ensures
            r == self@.initialized(),
    {
        self.creator.is_some()
    }

    /// Whether `address` is on the whitelist.
    pub fn is_whitelisted(&self, address: Principal) -> (r: bool)
        ensures
            r == self@.whitelist.contains(address),
    {
        let mut i: usize = 0;
        while i < self.whitelist.len()
            invariant
                i <= self.whitelist.len(),
                forall|k: int| 0 <= k < i ==> self.whitelist@[k] != address,
            decreases self.whitelist.len() - i,
        {
            if self.whitelist[i] == address {
                return true;
            }
            i += 1;
        }
        false
    }

    /// The checks that most operations start with.
    fn gate(&self, caller: Principal, principal: Option<Principal>) -> (r: Option<Abort>)
        ensures
            r == self@.gate(caller, principal),
    {
        if self.creator.is_none() {
            return Some(Abort::NotInitialized);
        }
        let authorized = match principal {
            Some(p) => p == caller,
            None => false,
        };
        if !authorized {
            Some(Abort::Unauthorized)
        } else if self.status != Status::Active {
            Some(Abort::NotActive)
        } else {
            None
        }
    }

    /// The checks that a contribution and a pledge share.
    fn funding_refusal(&self, caller: Principal, who: Principal, amount: i128, now: u64) -> (r:
        Option<Failure>)
        ensures
            r == self@.funding_refusal(caller, who, amount, now),
    {
        if let Some(abort) = self.gate(caller, Some(who)) {
            Some(Failure::Aborted(abort))
        } else if self.whitelist_enabled && !self.is_whitelisted(who) {
            Some(Failure::Aborted(Abort::NotWhitelisted))
        } else if amount <= 0 || amount < self.min_contribution {
            Some(Failure::Rejected(ContractError::InvalidAmount))
        } else if now > self.deadline {
            Some(Failure::Rejected(ContractError::CampaignEnded))
        } else {
            None
        }
    }

    /// Whether `who` has to wait before contributing again.
    fn rate_limited(&self, who: Principal, now: u64) -> (r: bool)
        requires
            self.wf(),
        ensures
            r == self@.rate_limited(who, now),
    {
        match self.cooldown {
            Some(cooldown) => match self.contribution_times.last_seen(who) {
                Some(last) => (now as u128) < (last as u128) + (cooldown as u128),
                None => false,
            },
            None => false,
        }
    }

    /// Sets the campaign up. It goes through once; afterwards it is
    /// rejected with `AlreadyInitialized` and changes nothing.
    ///
    /// `caller` is the principal whose control the caller has proved, and
    /// `now` is the current ledger time.
    pub fn initialize(
        &mut self,
        caller: Principal,
        creator: Principal,
        token: Principal,
        goal: i128,
        deadline: u64,
        min_contribution: i128,
        title: String,
        description: String,
        platform_config: Option<PlatformConfig>,
        now: u64,
    ) -> (r: Result<Vec<Effect>, Failure>)
        requires
            old(self).wf(),
        ensures
            final(self).wf(),
            old(self)@.initialize(
                caller,
                creator,
                token,
                goal,
                deadline,
                min_contribution,
                title@,
                description@,
                platform_config,
                now,
            ).agrees(final(self)@, r),
    {
        proof {
            self@.lemma_initialize_inv(
                caller,
                creator,
                token,
                goal,
                deadline,
                min_contribution,
                title@,
                description@,
                platform_config,
                now,
            );
        }
        if self.creator.is_some() {
            return Err(Failure::Rejected(ContractError::AlreadyInitialized));
        }
        if caller != creator {
            return Err(Failure::Aborted(Abort::Unauthorized));
        }
        if goal <= 0 {
            return Err(Failure::Rejected(ContractError::InvalidGoal));
        }
        if deadline <= now {
            return Err(Failure::Rejected(ContractError::InvalidDeadline));
        }
        if let Some(config) = platform_config {
            if config.fee_bps > 10000 {
                return Err(Failure::Aborted(Abort::FeeTooHigh));
            }
        }
        let mut fresh = CrowdfundContract::new();
        fresh.creator = Some(creator);
        fresh.token = Some(token);
        fresh.goal = goal;
        fresh.deadline = deadline;
        fresh.min_contribution = min_contribution;
        fresh.platform_config = platform_config;
        fresh.title = title;
        fresh.description = description;
        *self = fresh;
        Ok(Vec::new())
    }

    /// Takes a contribution of `amount` from `contributor`, attributed to
    /// `referral` where one is named and is not the contributor itself.
    pub fn contribute(
        &mut self,
        caller: Principal,
        contributor: Principal,
        amount: i128,
        referral: Option<Principal>,
        now: u64,
    ) -> (r: Result<Vec<Effect>, Failure>)
        requires
            old(self).wf(),
        ensures
            final(self).wf(),
            old(self)@.contribute(caller, contributor, amount, referral, now).agrees(final(self)@, r),
    {
        proof {
            self@.lemma_contribute_inv(caller, contributor, amount, referral, now);
            lemma_amount_bounds(self@.contributions, contributor);
        }
        if let Some(why) = self.funding_refusal(caller, contributor, amount, now) {
            return Err(why);
        }
        if self.rate_limited(contributor, now) {
            return Err(Failure::Rejected(ContractError::RateLimitExceeded));
        }
        let committed: i128 = self.total_raised + self.total_pledged;
        if amount > i128::MAX - committed {
            return Err(Failure::Rejected(ContractError::Overflow));
        }
        let referrer = referrer_of(contributor, referral);
        if let Some(referrer) = referrer {
            if amount > i128::MAX - self.referrals.amount_of(referrer) {
                return Err(Failure::Rejected(ContractError::Overflow));
            }
        }
        self.contributions.credit(contributor, amount);
        self.total_raised = self.total_raised + amount;
        self.contribution_times.touch(contributor, now);
        let mut effects: Vec<Effect> = Vec::new();
        effects.push(Effect::Collect { from: contributor, amount });
        effects.push(Effect::Emit(Event::Contributed { contributor, amount }));
        if let Some(referrer) = referrer {
            self.referrals.credit(referrer, amount);
            effects.push(Effect::Emit(Event::Referral { referrer, contributor, amount }));
        }
        assert(effects@ =~= CampaignState::contribute_effects(contributor, amount, referral));
        Ok(effects)
    }

    /// Records that `pledger` promises `amount`. No funds move until the
    /// pledges are collected.
    pub fn pledge(&mut self, caller: Principal, pledger: Principal, amount: i128, now: u64) -> (r:
        Result<Vec<Effect>, Failure>)
        requires
            old(self).wf(),
        ensures
            final(self).wf(),
            old(self)@.pledge(caller, pledger, amount, now).agrees(final(self)@, r),
    {
        proof {
            self@.lemma_pledge_inv(caller, pledger, amount, now);
            lemma_amount_bounds(self@.pledges, pledger);
        }
        if let Some(why) = self.funding_refusal(caller, pledger, amount, now) {
            return Err(why);
        }
        let committed: i128 = self.total_raised + self.total_pledged;
        if amount > i128::MAX - committed {
            return Err(Failure::Rejected(ContractError::Overflow));
        }
        self.pledges.credit(pledger, amount);
        self.total_pledged = self.total_pledged + amount;
        let mut effects: Vec<Effect> = Vec::new();
        effects.push(Effect::Emit(Event::Pledged { pledger, amount }));
        Ok(effects)
    }

    /// Why the pledges cannot be collected at `now`, if they cannot.
    fn collect_refusal(&self, now: u64) -> (r: Option<Failure>)
        requires
            self.wf(),
        ensures
            r == self@.collect_refusal(now),
    {
        if self.creator.is_none() {
            Some(Failure::Aborted(Abort::NotInitialized))
        } else if self.status != Status::Active {
            Some(Failure::Aborted(Abort::NotActive))
        } else if now <= self.deadline {
            Some(Failure::Rejected(ContractError::CampaignStillActive))
        } else if self.total_raised + self.total_pledged < self.goal {
            Some(Failure::Rejected(ContractError::GoalNotReached))
        } else {
            None
        }
    }

    /// The pledges that are to be pulled at `now`, in the order in which
    /// `collect_pledges` expects to hear of them: one entry for every
    /// pledger, with what it still owes. It fails exactly when
    /// `collect_pledges` would, and for the same reason.
    pub fn pledges_due(&self, now: u64) -> (r: Result<Vec<Entry>, Failure>)
        requires
            self.wf(),
        ensures
            match r {
                Ok(due) => self@.collect_refusal(now) is None && due@ == self.pledges.entries@,
                Err(why) => self@.collect_refusal(now) == Some(why),
            },
    {
        if let Some(why) = self.collect_refusal(now) {
            return Err(why);
        }
        Ok(self.pledges.entries.clone())
    }

    /// Folds the pledges that were pulled into the contributions.
    ///
    /// `pulled[i]` says whether the transfer from the pledger at position
    /// `i` of `pledges_due` went through. A pledge of which nothing is said
    /// counts as not pulled and stays outstanding. The `Collect` effects
    /// that are returned record the transfers that were reported; they are
    /// not to be carried out again.
    pub fn collect_pledges(&mut self, now: u64, pulled: &Vec<bool>) -> (r: Result<
        Vec<Effect>,
        Failure,
    >)
        requires
            old(self).wf(),
        ensures
            final(self).wf(),
            old(self)@.collect_pledges(now, pulled@).agrees(final(self)@, r),
    {
        let ghost before = self@;
        proof {
            before.lemma_collect_pledges_inv(now, pulled@);
            lemma_outstanding(before.pledges, pulled@);
        }
        if let Some(why) = self.collect_refusal(now) {
            return Err(why);
        }
        let n: usize = self.pledges.len();
        let mut effects: Vec<Effect> = Vec::new();
        let mut sum: i128 = 0;
        let mut i: usize = 0;
        while i < n
            invariant
                i <= n,
                n == before.pledges.len(),
                before.inv(),
                before.status == Status::Active,
                self@ == (CampaignState {
                    contributions: self.contributions@,
                    pledges: self.pledges@,
                    ..before
                }),
                collected_total(before.pledges, pulled@, n as int) <= before.total_pledged,
                self.pledges.entries@.len() == n,
                forall|k: int|
                    0 <= k < i ==> (#[trigger] self.pledges.entries@[k]).holding() == outstanding(
                        before.pledges,
                        pulled@,
                    )[k],
                forall|k: int|
                    i <= k < n ==> (#[trigger] self.pledges.entries@[k]).holding()
                        == before.pledges[k],
                self.contributions.wf(),
                self.contributions@ == collected_into(
                    before.contributions,
                    before.pledges,
                    pulled@,
                    i as int,
                ),
                sum == collected_total(before.pledges, pulled@, i as int),
                effects@ == collect_effects(before.pledges, pulled@, i as int),
            decreases n - i,
        {
            let e = self.pledges.entry(i);
            proof {
                lemma_collected_monotone(before.pledges, pulled@, i + 1, n as int);
                lemma_collected_into(before.contributions, before.pledges, pulled@, i as int);
                lemma_collected_into(before.contributions, before.pledges, pulled@, i + 1);
                lemma_amount_bounds(self.contributions@, e.who);
                lemma_bounds(before.pledges, i as int);
            }
            if i < pulled.len() && pulled[i] {
                if e.amount > 0 {
                    self.contributions.credit(e.who, e.amount);
                    effects.push(Effect::Collect { from: e.who, amount: e.amount });
                }
                sum = sum + e.amount;
                self.pledges.entries.set(i, Entry { who: e.who, amount: 0 });
            }
            i += 1;
        }
        proof {
            lemma_collected_into(before.contributions, before.pledges, pulled@, n as int);
        }
        self.total_raised = self.total_raised + sum;
        self.total_pledged = self.total_pledged - sum;
        effects.push(Effect::Emit(Event::PledgesCollected { amount: sum }));
        assert(self@ =~= before.collect_pledges(now, pulled@).next);
        Ok(effects)
    }

    /// Why `caller` may not have the balance of `principal` refunded at
    /// `now`, if it may not.
    fn refund_refusal(&self, caller: Principal, principal: Option<Principal>, now: u64) -> (r:
        Option<Failure>)
        ensures
            r == self@.refund_refusal(caller, principal, now),
    {
        if let Some(abort) = self.gate(caller, principal) {
            Some(Failure::Aborted(abort))
        } else if now <= self.deadline {
            Some(Failure::Rejected(ContractError::CampaignStillActive))
        } else if self.total_raised >= self.goal {
            Some(Failure::Rejected(ContractError::GoalReached))
        } else {
            None
        }
    }

    /// Settles a campaign that met its goal: the fee goes to the platform,
    /// where there is one, the rest to the creator, and a reward is minted
    /// for every contributor with a balance, where a reward contract is set.
    pub fn withdraw(&mut self, caller: Principal, now: u64) -> (r: Result<Vec<Effect>, Failure>)
        requires
            old(self).wf(),
        ensures
            final(self).wf(),
            old(self)@.withdraw(caller, now).agrees(final(self)@, r),
    {
        let ghost before = self@;
        if let Some(abort) = self.gate(caller, self.creator) {
            return Err(Failure::Aborted(abort));
        }
        if now <= self.deadline {
            return Err(Failure::Rejected(ContractError::CampaignStillActive));
        }
        if self.total_raised < self.goal {
            return Err(Failure::Rejected(ContractError::GoalNotReached));
        }
        let total: i128 = self.total_raised;
        let mut effects: Vec<Effect> = Vec::new();
        let mut payout: i128 = total;
        if let Some(config) = self.platform_config {
            let fee: i128 = fee_amount(total, config.fee_bps);
            effects.push(Effect::Pay { to: config.address, amount: fee });
            effects.push(Effect::Emit(Event::FeeTransferred { platform: config.address, fee }));
            payout = total - fee;
        }
        effects.push(Effect::Pay { to: caller, amount: payout });
        effects.push(Effect::Emit(Event::Withdrawn { creator: caller, amount: total }));
        if let Some(contract) = self.reward_nft_contract {
            push_rewards(&mut effects, contract, &self.contributions);
        }
        assert(effects@ =~= before.payout_effects() + before.mint_effects());
        self.total_raised = 0;
        self.status = Status::Successful;
        Ok(effects)
    }

    /// Settles a campaign that missed its goal, all at once: every
    /// contributor is paid back what it put in.
    pub fn refund(&mut self, caller: Principal, now: u64) -> (r: Result<Vec<Effect>, Failure>)
        requires
            old(self).wf(),
        ensures
            final(self).wf(),
            old(self)@.refund(caller, now).agrees(final(self)@, r),
    {
        let ghost before = self@;
        proof {
            before.lemma_refund_inv(caller, now);
        }
        if let Some(why) = self.refund_refusal(caller, self.creator, now) {
            return Err(why);
        }
        let mut effects: Vec<Effect> = Vec::new();
        push_refunds(&mut effects, &self.contributions);
        self.contributions.clear();
        self.total_raised = 0;
        self.status = Status::Refunded;
        Ok(effects)
    }

    /// Pays `contributor` back what it put into a campaign that missed its
    /// goal. A contributor without a balance gets nothing and nothing
    /// changes. When the last balance has been paid back the campaign is
    /// `Refunded`.
    pub fn refund_single(&mut self, caller: Principal, contributor: Principal, now: u64) -> (r:
        Result<Vec<Effect>, Failure>)
        requires
            old(self).wf(),
        ensures
            final(self).wf(),
            old(self)@.refund_single(caller, contributor, now).agrees(final(self)@, r),
    {
        let ghost before = self@;
        proof {
            before.lemma_refund_single_inv(caller, contributor, now);
            lemma_amount_bounds(before.contributions, contributor);
        }
        if let Some(why) = self.refund_refusal(caller, Some(contributor), now) {
            return Err(why);
        }
        let mut effects: Vec<Effect> = Vec::new();
        let amount: i128 = self.contributions.settle(contributor);
        if amount == 0 {
            assert(self@ =~= before);
            return Ok(effects);
        }
        self.total_raised = self.total_raised - amount;
        if self.total_raised == 0 {
            self.status = Status::Refunded;
        }
        effects.push(Effect::Pay { to: contributor, amount });
        effects.push(Effect::Emit(Event::Refunded { contributor, amount }));
        assert(effects@ =~= before.refund_single(caller, contributor, now).result->Ok_0);
        Ok(effects)
    }

    /// Replaces the title, the description and the social links, each
    /// where a new one is given.
    pub fn update_metadata(
        &mut self,
        caller: Principal,
        title: Option<String>,
        description: Option<String>,
        socials: Option<String>,
    ) -> (r: Result<Vec<Effect>, Failure>)
        requires
            old(self).wf(),
        ensures
            final(self).wf(),
            old(self)@.update_metadata(caller, text(title), text(description), text(socials)).agrees(
                final(self)@,
                r,
            ),
    {
        if let Some(abort) = self.gate(caller, self.creator) {
            return Err(Failure::Aborted(abort));
        }
        let event = Event::MetadataUpdated {
            title: title.is_some(),
            description: description.is_some(),
            socials: socials.is_some(),
        };
        if let Some(new_title) = title {
            self.title = new_title;
        }
        if let Some(new_description) = description {
            self.description = new_description;
        }
        if let Some(new_socials) = socials {
            self.socials = new_socials;
        }
        let mut effects: Vec<Effect> = Vec::new();
        effects.push(Effect::Emit(event));
        Ok(effects)
    }

    /// Appends an item to the roadmap. Its date is to lie strictly after
    /// `now` and its description is not to be empty.
    pub fn add_roadmap_item(&mut self, caller: Principal, date: u64, description: String, now: u64)
        -> (r: Result<Vec<Effect>, Failure>)
        requires
            old(self).wf(),
        ensures
            final(self).wf(),
            old(self)@.add_roadmap_item(caller, date, description@, now).agrees(final(self)@, r),
    {
        let ghost before = self@;
        if let Some(abort) = self.gate(caller, self.creator) {
            return Err(Failure::Aborted(abort));
        }
        if date <= now {
            return Err(Failure::Aborted(Abort::RoadmapDateNotInFuture));
        }
        if description.as_str().is_empty() {
            return Err(Failure::Aborted(Abort::EmptyDescription));
        }
        self.roadmap.push(RoadmapItem { date, description });
        let mut effects: Vec<Effect> = Vec::new();
        effects.push(Effect::Emit(Event::RoadmapItemAdded { date }));
        assert(self@ =~= before.add_roadmap_item(caller, date, description@, now).next);
        Ok(effects)
    }

    /// Puts `addresses` on the whitelist and puts the whitelist in force.
    pub fn add_to_whitelist(&mut self, caller: Principal, addresses: &Vec<Principal>) -> (r:
        Result<Vec<Effect>, Failure>)
        requires
            old(self).wf(),
        ensures
            final(self).wf(),
            old(self)@.add_to_whitelist(caller, addresses@).agrees(final(self)@, r),
    {
        let ghost before = self@;
        let ghost listed = self.whitelist@;
        if let Some(abort) = self.gate(caller, self.creator) {
            return Err(Failure::Aborted(abort));
        }
        if addresses.len() == 0 {
            return Err(Failure::Aborted(Abort::EmptyWhitelist));
        }
        self.whitelist_enabled = true;
        let mut i: usize = 0;
        while i < addresses.len()
            invariant
                i <= addresses.len(),
                self.whitelist@ == listed + addresses@.take(i as int),
                self@ == (CampaignState {
                    whitelist_enabled: true,
                    whitelist: self.whitelist@.to_set(),
                    ..before
                }),
            decreases addresses.len() - i,
        {
            self.whitelist.push(addresses[i]);
            i += 1;
        }
        proof {
            assert(addresses@.take(i as int) =~= addresses@);
            lemma_concat_to_set(listed, addresses@);
        }
        Ok(Vec::new())
    }

    /// Sets the least time that is to pass between two contributions of
    /// one principal, or lifts the limit.
    pub fn set_rate_limit(&mut self, caller: Principal, cooldown: Option<u64>) -> (r: Result<
        Vec<Effect>,
        Failure,
    >)
        requires
            old(self).wf(),
        ensures
            final(self).wf(),
            old(self)@.set_rate_limit(caller, cooldown).agrees(final(self)@, r),
    {
        if let Some(abort) = self.gate(caller, self.creator) {
            return Err(Failure::Aborted(abort));
        }
        self.cooldown = cooldown;
        Ok(Vec::new())
    }

    /// Sets the contract that mints a reward for every contributor when the
    /// funds are withdrawn, or switches rewards off.
    pub fn set_reward_nft_contract(&mut self, caller: Principal, contract: Option<Principal>) -> (r:
        Result<Vec<Effect>, Failure>)
        requires
            old(self).wf(),
        ensures
            final(self).wf(),
            old(self)@.set_reward_nft_contract(caller, contract).agrees(final(self)@, r),
    {
        if let Some(abort) = self.gate(caller, self.creator) {
            return Err(Failure::Aborted(abort));
        }
        self.reward_nft_contract = contract;
        Ok(Vec::new())
    }

    // ── Views ───────────────────────────────────────────────────────────

    /// What the campaign holds in custody.
    pub fn total_raised(&self) -> (r: i128)
        ensures
            r == self@.total_raised,
    {
        self.total_raised
    }

    /// The sum of the pledges that have not been collected.
    pub fn total_pledged(&self) -> (r: i128)
        ensures
            r == self@.total_pledged,
    {
        self.total_pledged
    }

    /// The funding goal.
    pub fn goal(&self) -> (r: i128)
        requires
            self@.initialized(),
        ensures
            r == self@.goal,
    {
        self.goal
    }

    /// The last instant at which contributions are accepted.
    pub fn deadline(&self) -> (r: u64)
        requires
            self@.initialized(),
        ensures
            r == self@.deadline,
    {
        self.deadline
    }

    /// The least amount accepted in one contribution or pledge.
    pub fn min_contribution(&self) -> (r: i128)
        requires
            self@.initialized(),
        ensures
            r == self@.min_contribution,
    {
        self.min_contribution
    }

    /// The creator of the campaign.
    pub fn creator(&self) -> (r: Principal)
        requires
            self@.initialized(),
        ensures
            Some(r) == self@.creator,
    {
        self.creator.unwrap()
    }

    /// Where the campaign stands in its lifecycle.
    pub fn status(&self) -> (r: Status)
        ensures
            r == self@.status,
    {
        self.status
    }

    /// What `contributor` has in the campaign: zero for one that never
    /// contributed or was paid back.
    pub fn contribution(&self, contributor: Principal) -> (r: i128)
        requires
            self.wf(),
        ensures
            r == amount_of(self@.contributions, contributor),
    {
        self.contributions.amount_of(contributor)
    }

    /// What `pledger` has promised and not yet paid.
    pub fn pledged(&self, pledger: Principal) -> (r: i128)
        requires
            self.wf(),
        ensures
            r == amount_of(self@.pledges, pledger),
    {
        self.pledges.amount_of(pledger)
    }

    /// What was contributed through `referrer`.
    pub fn referred(&self, referrer: Principal) -> (r: i128)
        requires
            self.wf(),
        ensures
            r == amount_of(self@.referrals, referrer),
    {
        self.referrals.amount_of(referrer)
    }

    /// The title.
    pub fn title(&self) -> (r: String)
        ensures
            r@ == self@.title,
    {
        self.title.clone()
    }

    /// The description.
    pub fn description(&self) -> (r: String)
        ensures
            r@ == self@.description,
    {
        self.description.clone()
    }

    /// The social links.
    pub fn socials(&self) -> (r: String)
        ensures
            r@ == self@.socials,
    {
        self.socials.clone()
    }

    /// The roadmap, in the order in which its items were added.
    pub fn roadmap(&self) -> (r: Vec<RoadmapItem>)
        ensures
            milestones(r@) == self@.roadmap,
    {
        let mut items: Vec<RoadmapItem> = Vec::new();
        let mut i: usize = 0;
        while i < self.roadmap.len()
            invariant
                i <= self.roadmap.len(),
                items@.len() == i,
                forall|k: int| 0 <= k < i ==> items@[k] == self.roadmap@[k],
            decreases self.roadmap.len() - i,
        {
            items.push(self.roadmap[i].clone());
            i += 1;
        }
        items
    }

    /// The fixed fields of the campaign with its title and description.
    pub fn get_campaign_info(&self) -> (r: CampaignInfo)
        requires
            self.wf(),
            self@.initialized(),
        ensures
            Some(r.creator) == self@.creator,
            Some(r.token) == self@.token,
            r.goal == self@.goal,
            r.deadline == self@.deadline,
            r.total_raised == self@.total_raised,
            r.title@ == self@.title,
            r.description@ == self@.description,
    {
        CampaignInfo {
            creator: self.creator.unwrap(),
            token: self.token.unwrap(),
            goal: self.goal,
            deadline: self.deadline,
            total_raised: self.total_raised,
            title: self.title.clone(),
            description: self.description.clone(),
        }
    }

    /// Aggregates over the campaign as it stands. Nothing changes.
    pub fn get_stats(&self) -> (r: CampaignStats)
        requires
            self.wf(),
        ensures
            r.total_raised == self@.total_raised,
            r.goal == self@.goal,
            r.progress_bps == progress_bps(self@.total_raised, self@.goal),
            r.contributor_count == self@.contributions.len(),
            r.average_contribution == average(
                self@.total_raised,
                self@.contributions.len() as int,
            ),
            r.largest_contribution == largest(self@.contributions),
    {
        let count: usize = self.contributions.len();
        CampaignStats {
            total_raised: self.total_raised,
            goal: self.goal,
            progress_bps: progress(self.total_raised, self.goal),
            contributor_count: count,
            average_contribution: average_contribution(self.total_raised, count),
            largest_contribution: self.contributions.largest(),
        }
    }

    /// The version of the rules that this campaign runs under.
    pub fn version(&self) -> (r: u32)
        ensures
            r == CONTRACT_VERSION,
    {
        CONTRACT_VERSION
    }

    /// Whether the books of this campaign balance. A campaign that every
    /// operation found well-formed stays so; one that was put together from
    /// stored parts is to pass this test first.
    pub fn is_well_formed(&self) -> (r: bool)
        ensures
            r == self.wf(),
    {
        if !Ledger::well_formed(&self.contributions.entries) || !Ledger::well_formed(
            &self.pledges.entries,
        ) || !Ledger::well_formed(&self.referrals.entries) || !Timeline::well_formed(
            &self.contribution_times.stamps,
        ) {
            return false;
        }
        if self.creator.is_some() {
            if self.token.is_none() || self.goal <= 0 {
                return false;
            }
        } else if self.status != Status::Active || self.total_raised != 0 {
            return false;
        }
        if let Some(config) = self.platform_config {
            if config.fee_bps > 10000 {
                return false;
            }
        }
        if self.total_raised < 0 || self.total_pledged < 0 || self.total_raised > i128::MAX
            - self.total_pledged {
            return false;
        }
        if self.status != Status::Active && self.total_raised != 0 {
            return false;
        }
        match self.pledges.total() {
            Some(sum) => if sum != self.total_pledged {
                return false;
            },
            None => {
                return false;
            },
        }
        if self.status == Status::Active || self.status == Status::Refunded {
            match self.contributions.total() {
                Some(sum) => if sum != self.total_raised {
                    return false;
                },
                None => {
                    return false;
                },
            }
        }
        true
    }
}

} // verus!
