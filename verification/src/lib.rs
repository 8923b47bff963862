//! A ledger-backed crowdfunding escrow as an explicit state machine.
//!
//! A campaign holds contributed value in custody, enforces a goal and a
//! deadline, and releases the funds to exactly one of two destinations: the
//! creator, when the goal was met, or the contributors, when it was not.
//!
//! The campaign moves no funds itself. Each operation takes the campaign,
//! the principal whose control the caller has proved, and the current time;
//! it returns either the effects that belong to it (transfers, mints,
//! events) or the reason why nothing happened. The host around it carries
//! the effects out.
//!
//! * [`state`] is the campaign as a mathematical value, with its invariant.
//! * [`rules`] says what each operation makes of such a value.
//! * [`contract`] is the campaign as a Rust value, with one method for each
//!   operation; each method is proved to follow its rule.
//! * [`laws`] holds what follows for every campaign: conservation of funds,
//!   the finality of a settled campaign, authorization, the boundaries of
//!   deadline and goal, the exactness of the fee.
//! * [`ledger`] and [`timeline`] hold the per-principal records, [`fee`] and
//!   [`stats`] the arithmetic, [`balance`] the proofs that the invariant is
//!   kept.

pub mod balance;
pub mod contract;
pub mod effect;
pub mod error;
pub mod fee;
pub mod laws;
pub mod ledger;
pub mod metadata;
pub mod principal;
pub mod rules;
pub mod state;
pub mod stats;
pub mod status;
pub mod timeline;
