//! What an operation asks of the world around the campaign.
//!
//! The campaign itself moves no funds and publishes nothing. Each operation
//! returns the list of effects that belong to it, in order; the host carries
//! them out within the same atomic invocation.

use vstd::prelude::*;
use crate::principal::Principal;

verus! {

/// A notification for observers. It is never read back.
#[derive(Clone, Copy, Debug, PartialEq, Eq, Structural)]
pub enum Event {
    Contributed { contributor: Principal, amount: i128 },
    Referral { referrer: Principal, contributor: Principal, amount: i128 },
    Pledged { pledger: Principal, amount: i128 },
    PledgesCollected { amount: i128 },
    Withdrawn { creator: Principal, amount: i128 },
    FeeTransferred { platform: Principal, fee: i128 },
    Refunded { contributor: Principal, amount: i128 },
    RoadmapItemAdded { date: u64 },
    MetadataUpdated { title: bool, description: bool, socials: bool },
    NftMinted { to: Principal },
}

/// One thing that happens outside the campaign's own books.
#[derive(Clone, Copy, Debug, PartialEq, Eq, Structural)]
pub enum Effect {
    /// `amount` of the campaign's asset moves from `from` into custody.
    Collect { from: Principal, amount: i128 },
    /// `amount` of the campaign's asset moves out of custody to `to`.
    Pay { to: Principal, amount: i128 },
    /// One collectible is minted by `contract` for `to`. Best effort: a
    /// failed mint does not undo the settlement it belongs to.
    Mint { contract: Principal, to: Principal },
    /// An event is published.
    Emit(Event),
}

/// What one effect brings into custody.
pub open spec fn inflow(e: Effect) -> int {
    match e {
        Effect::Collect { amount, .. } => amount as int,
        _ => 0,
    }
}

/// What one effect takes out of custody.
pub open spec fn outflow(e: Effect) -> int {
    match e {
        Effect::Pay { amount, .. } => amount as int,
        _ => 0,
    }
}

/// The sum of all inbound transfers among `effects`.
pub open spec fn received(effects: Seq<Effect>) -> int
    decreases effects.len(),
{
    if effects.len() == 0 {
        0
    } else {
        received(effects.drop_last()) + inflow(effects.last())
    }
}

/// The sum of all outbound transfers among `effects`.
pub open spec fn paid(effects: Seq<Effect>) -> int
    decreases effects.len(),
{
    if effects.len() == 0 {
        0
    } else {
        paid(effects.drop_last()) + outflow(effects.last())
    }
}

/// Both sums are additive over concatenation.
pub proof fn lemma_flows_concat(a: Seq<Effect>, b: Seq<Effect>)
    ensures
        received(a + b) == received(a) + received(b),
        paid(a + b) == paid(a) + paid(b),
    decreases b.len(),
{
    if b.len() > 0 {
        assert((a + b).drop_last() =~= a + b.drop_last());
        lemma_flows_concat(a, b.drop_last());
    }
}

/// Pushing one effect adds its flows.
pub proof fn lemma_flows_push(a: Seq<Effect>, e: Effect)
    ensures
        received(a.push(e)) == received(a) + inflow(e),
        paid(a.push(e)) == paid(a) + outflow(e),
{
    assert(a.push(e).drop_last() =~= a);
}

} // verus!
