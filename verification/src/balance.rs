//! Every operation keeps the books balanced: the proofs that `inv` is preserved.

use vstd::prelude::*;
use crate::ledger::{
    ledger_ok, lemma_amount_bounds, lemma_cleared, lemma_credit, lemma_settle,
    lemma_total_non_negative, non_negative, total, Holding,
};
use crate::metadata::PlatformConfig;
use crate::principal::Principal;
use crate::rules::{collected_into, collected_total, credited_referrer, outstanding};
use crate::state::CampaignState;
use crate::timeline::lemma_touch;

verus! {

/// What was pulled of the first `n` pledges depends on those pledges only.
pub proof fn lemma_collected_prefix(p: Seq<Holding>, q: Seq<Holding>, pulled: Seq<bool>, n: int)
    requires
        n <= p.len(),
        n <= q.len(),
        forall|i: int| 0 <= i < n ==> p[i] == q[i],
    ensures
        collected_total(p, pulled, n) == collected_total(q, pulled, n),
    decreases n,
{
    if n > 0 {
        lemma_collected_prefix(p, q, pulled, n - 1);
    }
}

/// What was pulled of the first `n` pledges is not negative and grows with
/// `n`.
pub proof fn lemma_collected_monotone(pledges: Seq<Holding>, pulled: Seq<bool>, m: int, n: int)
    requires
        non_negative(pledges),
        0 <= m <= n,
    ensures
        0 <= collected_total(pledges, pulled, m) <= collected_total(pledges, pulled, n),
    decreases n,
{
    if m < n {
        lemma_collected_monotone(pledges, pulled, m, n - 1);
    } else if n > 0 {
        lemma_collected_monotone(pledges, pulled, m - 1, n - 1);
    }
}

/// Collection leaves a well-formed pledge ledger that sums to what was not
/// pulled.
pub proof fn lemma_outstanding(pledges: Seq<Holding>, pulled: Seq<bool>)
    requires
        ledger_ok(pledges),
    ensures
        ledger_ok(outstanding(pledges, pulled)),
        total(outstanding(pledges, pulled)) == total(pledges) - collected_total(
            pledges,
            pulled,
            pledges.len() as int,
        ),
        0 <= collected_total(pledges, pulled, pledges.len() as int) <= total(pledges),
    decreases pledges.len(),
{
    let rest = outstanding(pledges, pulled);
    if pledges.len() > 0 {
        let front = pledges.drop_last();
        assert(rest.drop_last() =~= outstanding(front, pulled));
        lemma_outstanding(front, pulled);
        lemma_collected_prefix(pledges, front, pulled, front.len() as int);
    }
    lemma_total_non_negative(rest);
}

/// Folding pulled pledges into the contributions keeps them well-formed
/// and raises their sum by what was pulled.
pub proof fn lemma_collected_into(
    contributions: Seq<Holding>,
    pledges: Seq<Holding>,
    pulled: Seq<bool>,
    n: int,
)
    requires
        ledger_ok(contributions),
        non_negative(pledges),
        0 <= n <= pledges.len(),
    ensures
        ledger_ok(collected_into(contributions, pledges, pulled, n)),
        total(collected_into(contributions, pledges, pulled, n)) == total(contributions)
            + collected_total(pledges, pulled, n),
    decreases n,
{
    if n > 0 {
        lemma_collected_into(contributions, pledges, pulled, n - 1);
        lemma_credit(
            collected_into(contributions, pledges, pulled, n - 1),
            pledges[n - 1].who,
            pledges[n - 1].amount,
        );
    }
}

impl CampaignState {
    /// `initialize` keeps the invariant.
    pub proof fn lemma_initialize_inv(
        self,
        caller: Principal,
        creator: Principal,
        token: Principal,
        goal: i128,
        deadline: u64,
        min_contribution: i128,
        title: Seq<char>,
        description: Seq<char>,
        platform: Option<PlatformConfig>,
        now: u64,
    )
        requires
            self.inv(),
        ensures
            self.initialize(
                caller,
                creator,
                token,
                goal,
                deadline,
                min_contribution,
                title,
                description,
                platform,
                now,
            ).next.inv(),
    {
    }

    /// `contribute` keeps the invariant.
    pub proof fn lemma_contribute_inv(
        self,
        caller: Principal,
        contributor: Principal,
        amount: i128,
        referral: Option<Principal>,
        now: u64,
    )
        requires
            self.inv(),
        ensures
            self.contribute(caller, contributor, amount, referral, now).next.inv(),
    {
        if self.contribute_refusal(caller, contributor, amount, referral, now) is None {
            lemma_credit(self.contributions, contributor, amount as int);
            lemma_touch(self.contribution_times, contributor, now);
            if let Some(referrer) = credited_referrer(contributor, referral) {
                lemma_credit(self.referrals, referrer, amount as int);
            }
        }
    }

    /// `pledge` keeps the invariant.
    pub proof fn lemma_pledge_inv(self, caller: Principal, pledger: Principal, amount: i128, now: u64)
        requires
            self.inv(),
        ensures
            self.pledge(caller, pledger, amount, now).next.inv(),
    {
        if self.pledge_refusal(caller, pledger, amount, now) is None {
            lemma_credit(self.pledges, pledger, amount as int);
        }
    }

    /// `collect_pledges` keeps the invariant.
    pub proof fn lemma_collect_pledges_inv(self, now: u64, pulled: Seq<bool>)
        requires
            self.inv(),
        ensures
            self.collect_pledges(now, pulled).next.inv(),
    {
        if self.collect_refusal(now) is None {
            lemma_outstanding(self.pledges, pulled);
            lemma_collected_into(self.contributions, self.pledges, pulled, self.pledges.len() as int);
        }
    }

    /// `withdraw` keeps the invariant.
    pub proof fn lemma_withdraw_inv(self, caller: Principal, now: u64)
        requires
            self.inv(),
        ensures
            self.withdraw(caller, now).next.inv(),
    {
    }

    /// `refund` keeps the invariant.
    pub proof fn lemma_refund_inv(self, caller: Principal, now: u64)
        requires
            self.inv(),
        ensures
            self.refund(caller, now).next.inv(),
    {
        if self.refund_refusal(caller, self.creator, now) is None {
            lemma_cleared(self.contributions);
        }
    }

    /// `refund_single` keeps the invariant.
    pub proof fn lemma_refund_single_inv(self, caller: Principal, contributor: Principal, now: u64)
        requires
            self.inv(),
        ensures
            self.refund_single(caller, contributor, now).next.inv(),
    {
        if self.refund_refusal(caller, Some(contributor), now) is None {
            lemma_settle(self.contributions, contributor);
            lemma_amount_bounds(self.contributions, contributor);
        }
    }
}

} // verus!
