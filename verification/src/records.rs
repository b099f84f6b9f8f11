//! The three record kinds held by the staking ledger.
//!
//! Records reference one another by plain identity keys, never by live
//! references: a deposit names its pool by `(pool_creator, pool_id)` and its
//! owner by `staker`.  Account identities are plain `u64` keys; the host
//! environment is free to map its own addressing scheme onto them, since any
//! collision-free key space serves.

use vstd::prelude::*;

verus! {

/// One staking pool, identified by `(creator, pool_id)`.
///
/// `current_tokens_staked` always equals the sum of `tokens_deposited` over
/// the pool's non-withdrawn deposits; `current_rewards` is the undistributed
/// reward balance.  `emergency_mode_enabled` moves from `false` to `true` at
/// most once and never back.
#[derive(Clone, Copy, Debug, PartialEq, Eq, Structural)]
pub struct StakingPool {
    pub pool_id: u64,
    pub creator: u64,
    pub current_tokens_staked: u64,
    pub current_rewards: u64,
    pub claim_cooldown: i64,
    pub emergency_mode_enabled: bool,
}

/// One stake event, identified by `(staker, pool_creator, pool_id,
/// deposit_id)`.
///
/// `tokens_deposited` is the immutable principal.  `is_withdrawn` is
/// terminal: once set, the deposit is never mutated again.
#[derive(Clone, Copy, Debug, PartialEq, Eq, Structural)]
pub struct StakerDeposit {
    pub deposit_id: u64,
    pub staker: u64,
    pub pool_creator: u64,
    pub pool_id: u64,
    pub tokens_deposited: u64,
    pub tokens_claimed: u64,
    pub unlock_timestamp: i64,
    pub is_withdrawn: bool,
    pub is_cooldown_active: bool,
}

/// Per-staker rollup, identified by `staker`: the sum of `tokens_deposited`
/// over that staker's non-withdrawn deposits, across all pools.
#[derive(Clone, Copy, Debug, PartialEq, Eq, Structural)]
pub struct StakerStats {
    pub staker: u64,
    pub total_staked: u64,
}

impl StakerDeposit {
    /// The deposit belongs to the pool keyed `(creator, pool_id)`.
    pub open spec fn references_pool(self, creator: u64, pool_id: u64) -> bool {
        self.pool_creator == creator && self.pool_id == pool_id
    }

    /// The deposit still holds its principal in the pool.
    pub open spec fn is_active(self) -> bool {
        !self.is_withdrawn
    }

    /// Two deposits carry the same identity key.
    pub open spec fn same_key(self, other: StakerDeposit) -> bool {
        self.staker == other.staker && self.pool_creator == other.pool_creator
            && self.pool_id == other.pool_id && self.deposit_id == other.deposit_id
    }
}

impl StakingPool {
    /// Two pools carry the same identity key.
    pub open spec fn same_key(self, other: StakingPool) -> bool {
        self.creator == other.creator && self.pool_id == other.pool_id
    }
}

} // verus!
