//! Error kinds reported by the staking operations.

use vstd::prelude::*;

verus! {

/// Why a staking operation was refused.  Every precondition failure is
/// surfaced as a distinct variant; no operation has a partial effect when it
/// returns an error.
#[derive(Clone, Copy, Debug, PartialEq, Eq, Structural)]
pub enum StakingError {
    /// A pool with the same `(creator, pool_id)` key already exists.
    PoolAlreadyExists,
    /// No pool with the given `(creator, pool_id)` key exists.
    PoolNotFound,
    /// A deposit with the same `(staker, creator, pool_id, deposit_id)` key
    /// already exists.
    DepositAlreadyExists,
    /// No deposit with the given key exists.
    DepositNotFound,
    /// A stake of zero tokens was requested.
    InvalidDepositAmount,
    /// A counter or timestamp would leave the range of its integer type.
    ArithmeticOverflow,
    /// Emergency mode was already enabled for this pool.
    EmergencyModeAlreadyEnabled,
    /// The pool is in emergency mode, which blocks staking and normal
    /// unstaking.
    EmergencyModeEnabled,
    /// The operation is valid only while the pool is in emergency mode.
    EmergencyModeNotEnabled,
    /// The deposit was already withdrawn; `is_withdrawn` is terminal.
    DepositAlreadyWithdrawn,
    /// Cooldown was already activated for this deposit; it cannot be re-armed.
    CooldownAlreadyActivated,
    /// Unstaking requires the deposit's cooldown to have been activated first.
    ClaimCooldownNotActive,
    /// The deposit's cooldown has not elapsed yet.
    ClaimCooldownNotElapsed,
    /// The signer is not the pool's creator.
    UnauthorizedPoolAccess,
}

} // verus!
