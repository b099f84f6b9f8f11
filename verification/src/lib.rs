//! A verified staking-pool ledger.
//!
//! The library models the records of a staking system — pools, deposits, and
//! per-staker aggregates — as an indexed store, and implements its operations:
//! pool creation and funding, deposit accounting, cooldown-gated unstaking with
//! a proportional reward payout, and a one-way emergency mode that permits
//! principal-only exits and a creator-only reward drain.
//!
//! Every operation is specified by a pure transition function over the store's
//! mathematical view, and the executable methods are proved to implement those
//! transitions exactly.  The store's well-formedness invariant — each pool's
//! staked total equals the sum of its active deposits, and likewise for each
//! staker's aggregate — is proved to be preserved by every operation.
//!
//! Value transfers and clock reads belong to the host environment; operations
//! take the current time as an argument and return the amounts to be moved.

pub mod errors;
pub mod records;
pub mod seq_util;
pub mod model;
pub mod reward;
pub mod instructions;
pub mod transitions;
pub mod ledger;
pub mod laws;
