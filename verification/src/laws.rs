//! What holds of every campaign, whatever is called on it and in whatever
//! order.

use vstd::prelude::*;
use crate::balance::lemma_outstanding;
use crate::effect::{inflow, lemma_flows_concat, lemma_flows_push, outflow, paid, received, Effect};
use crate::error::{Abort, ContractError, Failure};
use crate::ledger::{
    amount_of, lemma_amount_bounds, lemma_bounds, lemma_credit, lemma_settle,
    lemma_total_non_negative, non_negative, total, Holding,
};
use crate::metadata::PlatformConfig;
use crate::principal::Principal;
use crate::rules::{
    collect_effects, collected_total, platform_fee, refund_effects, refund_of, reward_effects,
};
use crate::state::{CampaignState, Step};
use crate::status::Status;

verus! {

/// One operation together with its arguments.
#[allow(inconsistent_fields)]
pub enum Call {
    Initialize {
        caller: Principal,
        creator: Principal,
        token: Principal,
        goal: i128,
        deadline: u64,
        min_contribution: i128,
        title: Seq<char>,
        description: Seq<char>,
        platform: Option<PlatformConfig>,
        now: u64,
    },
    Contribute {
        caller: Principal,
        contributor: Principal,
        amount: i128,
        referral: Option<Principal>,
        now: u64,
    },
    Pledge { caller: Principal, pledger: Principal, amount: i128, now: u64 },
    CollectPledges { now: u64, pulled: Seq<bool> },
    Withdraw { caller: Principal, now: u64 },
    Refund { caller: Principal, now: u64 },
    RefundSingle { caller: Principal, contributor: Principal, now: u64 },
    UpdateMetadata {
        caller: Principal,
        title: Option<Seq<char>>,
        description: Option<Seq<char>>,
        socials: Option<Seq<char>>,
    },
    AddRoadmapItem { caller: Principal, date: u64, description: Seq<char>, now: u64 },
    AddToWhitelist { caller: Principal, addresses: Seq<Principal> },
    SetRateLimit { caller: Principal, cooldown: Option<u64> },
    SetRewardNftContract { caller: Principal, contract: Option<Principal> },
}

impl Call {
    /// The principal whose control the caller has proved. Collecting
    /// pledges is open to anyone and names none.
    pub open spec fn caller(self) -> Option<Principal> {
        match self {
            Call::Initialize { caller, .. } => Some(caller),
            Call::Contribute { caller, .. } => Some(caller),
            Call::Pledge { caller, .. } => Some(caller),
            Call::CollectPledges { .. } => None,
            Call::Withdraw { caller, .. } => Some(caller),
            Call::Refund { caller, .. } => Some(caller),
            Call::RefundSingle { caller, .. } => Some(caller),
            Call::UpdateMetadata { caller, .. } => Some(caller),
            Call::AddRoadmapItem { caller, .. } => Some(caller),
            Call::AddToWhitelist { caller, .. } => Some(caller),
            Call::SetRateLimit { caller, .. } => Some(caller),
            Call::SetRewardNftContract { caller, .. } => Some(caller),
        }
    }
}

impl CampaignState {
    /// What `call` makes of this state.
    pub open spec fn apply(self, call: Call) -> Step {
        match call {
            Call::Initialize {
                caller,
                creator,
                token,
                goal,
                deadline,
                min_contribution,
                title,
                description,
                platform,
                now,
            } => self.initialize(
                caller,
                creator,
                token,
                goal,
                deadline,
                min_contribution,
                title,
                description,
                platform,
                now,
            ),
            Call::Contribute { caller, contributor, amount, referral, now } => self.contribute(
                caller,
                contributor,
                amount,
                referral,
                now,
            ),
            Call::Pledge { caller, pledger, amount, now } => self.pledge(caller, pledger, amount, now),
            Call::CollectPledges { now, pulled } => self.collect_pledges(now, pulled),
            Call::Withdraw { caller, now } => self.withdraw(caller, now),
            Call::Refund { caller, now } => self.refund(caller, now),
            Call::RefundSingle { caller, contributor, now } => self.refund_single(
                caller,
                contributor,
                now,
            ),
            Call::UpdateMetadata { caller, title, description, socials } => self.update_metadata(
                caller,
                title,
                description,
                socials,
            ),
            Call::AddRoadmapItem { caller, date, description, now } => self.add_roadmap_item(
                caller,
                date,
                description,
                now,
            ),
            Call::AddToWhitelist { caller, addresses } => self.add_to_whitelist(caller, addresses),
            Call::SetRateLimit { caller, cooldown } => self.set_rate_limit(caller, cooldown),
            Call::SetRewardNftContract { caller, contract } => self.set_reward_nft_contract(
                caller,
                contract,
            ),
        }
    }

    /// The principal that `call` acts for, and whose control it therefore
    /// asks the caller to have proved: itself for the one who funds or
    /// takes back its own funds, the creator for everything else.
    pub open spec fn authority(self, call: Call) -> Option<Principal> {
        match call {
            Call::Initialize { creator, .. } => Some(creator),
            Call::Contribute { contributor, .. } => Some(contributor),
            Call::Pledge { pledger, .. } => Some(pledger),
            Call::RefundSingle { contributor, .. } => Some(contributor),
            _ => self.creator,
        }
    }

    /// The state after all of `calls`, one after the other.
    pub open spec fn run(self, calls: Seq<Call>) -> CampaignState
        decreases calls.len(),
    {
        if calls.len() == 0 {
            self
        } else {
            self.run(calls.drop_last()).apply(calls.last()).next
        }
    }

    /// The effects of all of `calls`, in order. A refused call has none.
    pub open spec fn effects_of(self, calls: Seq<Call>) -> Seq<Effect>
        decreases calls.len(),
    {
        if calls.len() == 0 {
            Seq::empty()
        } else {
            self.effects_of(calls.drop_last()) + match self.run(calls.drop_last()).apply(
                calls.last(),
            ).result {
                Ok(effects) => effects,
                Err(_) => Seq::empty(),
            }
        }
    }
}

/// The fee is never negative and never more than the total it is taken from.
pub proof fn lemma_fee_bounds(total: int, fee_bps: int)
    requires
        0 <= total,
        0 <= fee_bps <= 10000,
    ensures
        0 <= platform_fee(total, fee_bps) <= total,
{
    assert(0 <= total * fee_bps <= total * 10000) by (nonlinear_arith)
        requires
            0 <= total,
            0 <= fee_bps <= 10000,
    ;
    assert(total * fee_bps / 10000 <= total) by (nonlinear_arith)
        requires
            0 <= total * fee_bps <= total * 10000,
    ;
}

proof fn lemma_flows_none()
    ensures
        received(Seq::<Effect>::empty()) == 0,
        paid(Seq::<Effect>::empty()) == 0,
{
}

proof fn lemma_flows_one(a: Effect)
    ensures
        received(seq![a]) == inflow(a),
        paid(seq![a]) == outflow(a),
{
    lemma_flows_push(Seq::<Effect>::empty(), a);
}

proof fn lemma_flows_two(a: Effect, b: Effect)
    ensures
        received(seq![a, b]) == inflow(a) + inflow(b),
        paid(seq![a, b]) == outflow(a) + outflow(b),
{
    assert(seq![a, b] =~= seq![a].push(b));
    lemma_flows_one(a);
    lemma_flows_push(seq![a], b);
}

/// Returning one balance pays out exactly that balance.
proof fn lemma_refund_of_flows(h: Holding)
    requires
        0 <= h.amount <= i128::MAX,
    ensures
        received(refund_of(h)) == 0,
        paid(refund_of(h)) == h.amount,
{
    if h.amount > 0 {
        lemma_flows_two(refund_of(h)[0], refund_of(h)[1]);
    }
}

/// Returning every balance pays out exactly their sum.
proof fn lemma_refund_flows(l: Seq<Holding>)
    requires
        non_negative(l),
        total(l) <= i128::MAX,
    ensures
        received(refund_effects(l)) == 0,
        paid(refund_effects(l)) == total(l),
    decreases l.len(),
{
    if l.len() > 0 {
        lemma_total_non_negative(l.drop_last());
        lemma_bounds(l, l.len() - 1);
        lemma_refund_flows(l.drop_last());
        lemma_refund_of_flows(l.last());
        lemma_flows_concat(refund_effects(l.drop_last()), refund_of(l.last()));
    }
}

/// Minting moves no funds.
proof fn lemma_reward_flows(contract: Principal, l: Seq<Holding>)
    ensures
        received(reward_effects(contract, l)) == 0,
        paid(reward_effects(contract, l)) == 0,
    decreases l.len(),
{
    if l.len() > 0 {
        lemma_reward_flows(contract, l.drop_last());
        let h = l.last();
        let one = crate::rules::reward_of(contract, h);
        if h.amount > 0 {
            lemma_flows_two(one[0], one[1]);
        }
        lemma_flows_concat(reward_effects(contract, l.drop_last()), one);
    }
}

/// Collecting pledges brings in exactly what was pulled.
proof fn lemma_collect_flows(pledges: Seq<Holding>, pulled: Seq<bool>, n: int)
    requires
        non_negative(pledges),
        total(pledges) <= i128::MAX,
        0 <= n <= pledges.len(),
    ensures
        received(collect_effects(pledges, pulled, n)) == collected_total(pledges, pulled, n),
        paid(collect_effects(pledges, pulled, n)) == 0,
    decreases n,
{
    if n > 0 {
        lemma_collect_flows(pledges, pulled, n - 1);
        lemma_bounds(pledges, n - 1);
        lemma_flows_push(
            collect_effects(pledges, pulled, n - 1),
            Effect::Collect { from: pledges[n - 1].who, amount: pledges[n - 1].amount as i128 },
        );
    }
}

/// Every operation keeps the books balanced.
pub proof fn law_invariant(s: CampaignState, call: Call)
    requires
        s.inv(),
    ensures
        s.apply(call).next.inv(),
{
    match call {
        Call::Initialize {
            caller,
            creator,
            token,
            goal,
            deadline,
            min_contribution,
            title,
            description,
            platform,
            now,
        } => s.lemma_initialize_inv(
            caller,
            creator,
            token,
            goal,
            deadline,
            min_contribution,
            title,
            description,
            platform,
            now,
        ),
        Call::Contribute { caller, contributor, amount, referral, now } => s.lemma_contribute_inv(
            caller,
            contributor,
            amount,
            referral,
            now,
        ),
        Call::Pledge { caller, pledger, amount, now } => s.lemma_pledge_inv(
            caller,
            pledger,
            amount,
            now,
        ),
        Call::CollectPledges { now, pulled } => s.lemma_collect_pledges_inv(now, pulled),
        Call::Withdraw { caller, now } => s.lemma_withdraw_inv(caller, now),
        Call::Refund { caller, now } => s.lemma_refund_inv(caller, now),
        Call::RefundSingle { caller, contributor, now } => s.lemma_refund_single_inv(
            caller,
            contributor,
            now,
        ),
        _ => {},
    }
}

/// A refused operation changes nothing.
pub proof fn law_refusal_changes_nothing(s: CampaignState, call: Call)
    ensures
        s.apply(call).result is Err ==> s.apply(call).next == s,
{
}

/// Conservation, one operation at a time: custody changes by exactly what
/// the operation's transfers bring in, less what they pay out. No value
/// enters or leaves the books in any other way.
pub proof fn law_step_conserves(s: CampaignState, call: Call)
    requires
        s.inv(),
    ensures
        match s.apply(call).result {
            Ok(effects) => s.apply(call).next.total_raised == s.total_raised + received(effects)
                - paid(effects),
            Err(_) => s.apply(call).next.total_raised == s.total_raised,
        },
{
    let step = s.apply(call);
    lemma_flows_none();
    if let Ok(effects) = step.result {
        match call {
            Call::Initialize { .. } => {},
            Call::Contribute { contributor, amount, referral, .. } => {
                lemma_flows_two(effects[0], effects[1]);
                if effects.len() == 3 {
                    lemma_flows_push(seq![effects[0], effects[1]], effects[2]);
                }
            },
            Call::Pledge { .. } => {
                lemma_flows_one(effects[0]);
            },
            Call::CollectPledges { now, pulled } => {
                let n = s.pledges.len() as int;
                lemma_outstanding(s.pledges, pulled);
                lemma_collect_flows(s.pledges, pulled, n);
                lemma_flows_push(collect_effects(s.pledges, pulled, n), effects.last());
            },
            Call::Withdraw { .. } => {
                lemma_payout_flows(s);
                match s.reward_nft_contract {
                    Some(contract) => lemma_reward_flows(contract, s.contributions),
                    None => {},
                }
                lemma_flows_concat(s.payout_effects(), s.mint_effects());
            },
            Call::Refund { .. } => {
                lemma_refund_flows(s.contributions);
            },
            Call::RefundSingle { contributor, .. } => {
                lemma_amount_bounds(s.contributions, contributor);
                let amount = amount_of(s.contributions, contributor);
                if amount != 0 {
                    lemma_refund_of_flows(Holding { who: contributor, amount });
                }
            },
            Call::UpdateMetadata { .. } => {
                lemma_flows_one(effects[0]);
            },
            Call::AddRoadmapItem { .. } => {
                lemma_flows_one(effects[0]);
            },
            Call::AddToWhitelist { .. } => {},
            Call::SetRateLimit { .. } => {},
            Call::SetRewardNftContract { .. } => {},
        }
    }
}

/// The payments of a withdrawal add up to all that is in custody.
proof fn lemma_payout_flows(s: CampaignState)
    requires
        s.inv(),
    ensures
        received(s.payout_effects()) == 0,
        paid(s.payout_effects()) == s.total_raised,
        0 <= s.fee() <= s.total_raised,
{
    let e = s.payout_effects();
    match s.platform {
        Some(config) => {
            lemma_fee_bounds(s.total_raised, config.fee_bps as int);
            lemma_flows_two(e[0], e[1]);
            lemma_flows_two(e[2], e[3]);
            lemma_flows_concat(seq![e[0], e[1]], seq![e[2], e[3]]);
        },
        None => {
            lemma_flows_two(e[0], e[1]);
        },
    }
}

/// Nothing is paid out of custody but by a withdrawal or a refund.
pub proof fn law_only_settlement_pays_out(s: CampaignState, call: Call)
    requires
        s.inv(),
    ensures
        s.apply(call).result matches Ok(effects) && paid(effects) != 0 ==> call is Withdraw
            || call is Refund || call is RefundSingle,
{
    if !(call is Withdraw || call is Refund || call is RefundSingle) {
        if let Ok(effects) = s.apply(call).result {
            match call {
                Call::Contribute { .. } => {
                    lemma_flows_two(effects[0], effects[1]);
                    if effects.len() == 3 {
                        lemma_flows_push(seq![effects[0], effects[1]], effects[2]);
                    }
                },
                Call::Pledge { .. } => {
                    lemma_flows_one(effects[0]);
                },
                Call::CollectPledges { now, pulled } => {
                    let n = s.pledges.len() as int;
                    lemma_outstanding(s.pledges, pulled);
                    lemma_collect_flows(s.pledges, pulled, n);
                    lemma_flows_push(collect_effects(s.pledges, pulled, n), effects.last());
                },
                Call::UpdateMetadata { .. } => {
                    lemma_flows_one(effects[0]);
                },
                Call::AddRoadmapItem { .. } => {
                    lemma_flows_one(effects[0]);
                },
                _ => {
                    lemma_flows_none();
                },
            }
        }
    }
}

/// Initialization happens once: on a campaign that has been initialized it
/// is rejected with `AlreadyInitialized`, whoever calls and whatever the
/// arguments, and changes nothing.
pub proof fn law_initialize_once(s: CampaignState, call: Call)
    requires
        s.initialized(),
        call is Initialize,
    ensures
        s.apply(call).result == Err::<Seq<Effect>, Failure>(
            Failure::Rejected(ContractError::AlreadyInitialized),
        ),
        s.apply(call).next == s,
{
}

/// Conservation: after any sequence of operations on a new campaign, what
/// came in less what went out is what the books show as held; and once the
/// campaign has left `Active`, or every contributor of a campaign that was
/// not withdrawn has taken its funds back, all that came in has gone out.
pub proof fn law_conservation(calls: Seq<Call>)
    ensures
        ({
            let start = CampaignState::vacant();
            let end = start.run(calls);
            let effects = start.effects_of(calls);
            &&& end.inv()
            &&& received(effects) - paid(effects) == end.total_raised
            &&& end.status.is_terminal() ==> received(effects) == paid(effects)
            &&& end.status == Status::Active && total(end.contributions) == 0 ==> received(effects)
                == paid(effects)
        }),
    decreases calls.len(),
{
    let start = CampaignState::vacant();
    if calls.len() == 0 {
    } else {
        let before = calls.drop_last();
        law_conservation(before);
        let s = start.run(before);
        let call = calls.last();
        law_invariant(s, call);
        law_step_conserves(s, call);
        let more = match s.apply(call).result {
            Ok(effects) => effects,
            Err(_) => Seq::empty(),
        };
        lemma_flows_concat(start.effects_of(before), more);
    }
}

/// A contribution that is accepted adds its amount to the balance of the
/// contributor and to custody, and leaves every other balance as it was.
pub proof fn law_contribution_is_credited(
    s: CampaignState,
    caller: Principal,
    contributor: Principal,
    amount: i128,
    referral: Option<Principal>,
    now: u64,
)
    requires
        s.inv(),
        s.contribute(caller, contributor, amount, referral, now).result is Ok,
    ensures
        ({
            let next = s.contribute(caller, contributor, amount, referral, now).next;
            &&& next.total_raised == s.total_raised + amount
            &&& amount_of(next.contributions, contributor) == amount_of(
                s.contributions,
                contributor,
            ) + amount
            &&& forall|other: Principal|
                other != contributor ==> amount_of(next.contributions, other) == amount_of(
                    s.contributions,
                    other,
                )
        }),
{
    lemma_credit(s.contributions, contributor, amount as int);
}

/// A pull refund that goes through pays the contributor exactly its
/// balance, sets that balance to zero, lowers custody by it, and leaves
/// every other balance as it was.
pub proof fn law_refund_single_returns_the_balance(
    s: CampaignState,
    caller: Principal,
    contributor: Principal,
    now: u64,
)
    requires
        s.inv(),
        s.refund_single(caller, contributor, now).result is Ok,
    ensures
        ({
            let step = s.refund_single(caller, contributor, now);
            let balance = amount_of(s.contributions, contributor);
            &&& paid(step.result->Ok_0) == balance
            &&& received(step.result->Ok_0) == 0
            &&& step.next.total_raised == s.total_raised - balance
            &&& amount_of(step.next.contributions, contributor) == 0
            &&& forall|other: Principal|
                other != contributor ==> amount_of(step.next.contributions, other) == amount_of(
                    s.contributions,
                    other,
                )
            &&& step.next.status == Status::Refunded <==> step.next.total_raised == 0 && balance > 0
        }),
{
    lemma_settle(s.contributions, contributor);
    lemma_amount_bounds(s.contributions, contributor);
    let balance = amount_of(s.contributions, contributor);
    if balance != 0 {
        lemma_refund_of_flows(Holding { who: contributor, amount: balance });
    }
}

/// Idempotence of the pull refund: once a refund of `contributor` has gone
/// through, another one, at that time or later, pays nothing and leaves the
/// campaign as the first one left it.
pub proof fn law_refund_single_idempotent(
    s: CampaignState,
    caller: Principal,
    contributor: Principal,
    now: u64,
    later: u64,
)
    requires
        s.inv(),
        s.refund_single(caller, contributor, now).result is Ok,
    ensures
        ({
            let once = s.refund_single(caller, contributor, now);
            let twice = once.next.refund_single(caller, contributor, later);
            &&& twice.next == once.next
            &&& twice.result matches Ok(effects) ==> effects == Seq::<Effect>::empty()
        }),
{
    lemma_settle(s.contributions, contributor);
}

/// Monotonic status: once the campaign has left `Active`, every operation
/// is refused and the campaign, its status included, stays as it is.
pub proof fn law_terminal_is_final(s: CampaignState, call: Call)
    requires
        s.inv(),
        s.status.is_terminal(),
    ensures
        s.apply(call).result is Err,
        s.apply(call).next == s,
{
}

/// The status changes only by leaving `Active`.
pub proof fn law_status_only_leaves_active(s: CampaignState, call: Call)
    requires
        s.inv(),
    ensures
        s.apply(call).next.status != s.status ==> s.status == Status::Active,
{
}

/// Authorization: an operation on an initialized campaign, or the
/// initialization of a new one, is abandoned as `Unauthorized`, with
/// nothing changed, when the caller has not proved control of the principal
/// that the operation acts for.
pub proof fn law_authorization(s: CampaignState, call: Call)
    requires
        call.caller() is Some,
        call is Initialize <==> !s.initialized(),
        call.caller() != s.authority(call),
    ensures
        s.apply(call).result == Err::<Seq<Effect>, Failure>(Failure::Aborted(Abort::Unauthorized)),
        s.apply(call).next == s,
{
}

/// The deadline is inclusive for contributions. A contribution that is
/// accepted at some time is made no later than the deadline and is accepted
/// at the deadline itself; one that would be accepted at the deadline is
/// rejected with `CampaignEnded` at every later time.
pub proof fn law_deadline_is_inclusive(
    s: CampaignState,
    caller: Principal,
    contributor: Principal,
    amount: i128,
    referral: Option<Principal>,
    now: u64,
)
    ensures
        s.contribute(caller, contributor, amount, referral, now).result is Ok ==> now <= s.deadline
            && s.contribute(caller, contributor, amount, referral, s.deadline).result is Ok,
        s.contribute(caller, contributor, amount, referral, s.deadline).result is Ok && now
            > s.deadline ==> s.contribute(caller, contributor, amount, referral, now).result == Err::<
            Seq<Effect>,
            Failure,
        >(Failure::Rejected(ContractError::CampaignEnded)),
{
}

/// The goal is inclusive for withdrawal. After the deadline the creator of
/// an active campaign can withdraw exactly when what was raised is at least
/// the goal, so a campaign that raised exactly its goal can be withdrawn;
/// otherwise the withdrawal is rejected with `GoalNotReached`.
pub proof fn law_goal_is_inclusive(s: CampaignState, caller: Principal, now: u64)
    requires
        s.initialized(),
        s.creator == Some(caller),
        s.status == Status::Active,
        now > s.deadline,
    ensures
        s.withdraw(caller, now).result is Ok <==> s.total_raised >= s.goal,
        s.total_raised < s.goal ==> s.withdraw(caller, now).result == Err::<Seq<Effect>, Failure>(
            Failure::Rejected(ContractError::GoalNotReached),
        ),
{
}

/// Fee correctness: a withdrawal of a total `T` at a fee of `f` basis points
/// pays the platform `T * f / 10000`, rounded down, and the creator the
/// rest, `T` less the fee; without a platform the creator is paid `T`. In
/// both cases the payments add up to `T`.
pub proof fn law_fee_is_exact(s: CampaignState, caller: Principal, now: u64)
    requires
        s.inv(),
        s.withdraw(caller, now).result is Ok,
    ensures
        ({
            let effects = s.withdraw(caller, now).result->Ok_0;
            let total = s.total_raised;
            &&& paid(effects) == total
            &&& match s.platform {
                Some(config) => {
                    let fee = total * (config.fee_bps as int) / 10000;
                    &&& 0 <= fee <= total
                    &&& effects[0] == Effect::Pay { to: config.address, amount: fee as i128 }
                    &&& outflow(effects[0]) == fee
                    &&& effects[2] == Effect::Pay { to: caller, amount: (total - fee) as i128 }
                    &&& outflow(effects[2]) == total - fee
                },
                None => {
                    &&& effects[0] == Effect::Pay { to: caller, amount: total as i128 }
                    &&& outflow(effects[0]) == total
                },
            }
        }),
{
    lemma_payout_flows(s);
    match s.reward_nft_contract {
        Some(contract) => lemma_reward_flows(contract, s.contributions),
        None => {},
    }
    lemma_flows_concat(s.payout_effects(), s.mint_effects());
}

} // verus!
