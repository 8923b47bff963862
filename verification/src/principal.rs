//! Identities of the parties to a campaign.

use vstd::prelude::*;

verus! {

/// What kind of ledger entity stands behind a principal.
#[derive(Clone, Copy, Debug, PartialEq, Eq, Hash, Structural)]
pub enum PrincipalKind {
    /// An account controlled by a key pair.
    Account,
    /// A deployed contract.
    Contract,
}

/// The identity unit that can authorize an action: a contributor, the
/// creator, a referrer, a fee recipient.
///
/// A principal is its kind together with a 256-bit identifier, held as two
/// 128-bit halves. Two principals are the same party exactly when all three
/// fields agree.
#[derive(Clone, Copy, Debug, PartialEq, Eq, Hash, Structural)]
pub struct Principal {
    pub kind: PrincipalKind,
    /// The high 128 bits of the identifier.
    pub hi: u128,
    /// The low 128 bits of the identifier.
    pub lo: u128,
}

} // verus!
