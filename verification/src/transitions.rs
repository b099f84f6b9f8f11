//! Pure transition functions: each operation's result and successor state.
//!
//! For every operation the ledger offers, a `.._result` function gives the
//! exact `Result` it returns — each error paired with precisely the inputs
//! that produce it — and a `.._next` function gives the state after the call.
//! When the result is an error, the successor state is the state unchanged:
//! every precondition is checked before any mutation.
//!
//! The executable methods in [`crate::ledger`] are proved to return
//! `.._result` and to leave the store at `.._next`, so these functions are
//! the single authoritative description of the state machine.

use vstd::prelude::*;

use crate::errors::StakingError;
use crate::model::{stats_key, LedgerView};
use crate::records::{StakerDeposit, StakerStats, StakingPool};
use crate::reward::proportional_reward;
use crate::seq_util::find_index;

verus! {

/// `x` fits in a signed 64-bit timestamp.
pub open spec fn fits_i64(x: int) -> bool {
    i64::MIN <= x <= i64::MAX
}

/// `x` fits in an unsigned 64-bit token amount.
pub open spec fn fits_u64(x: int) -> bool {
    0 <= x <= u64::MAX
}

/// `staker`'s aggregate before an operation: the recorded total, or zero if
/// the staker has no record yet.
pub open spec fn recorded_staker_total(m: LedgerView, staker: u64) -> int {
    if m.stats_index(staker) >= 0 {
        m.stats[m.stats_index(staker)].total_staked as int
    } else {
        0
    }
}

/// What `create_pool` returns: the key must be fresh.
pub open spec fn create_pool_result(
    m: LedgerView,
    creator: u64,
    pool_id: u64,
    initial_funding_amount: u64,
    claim_cooldown: i64,
) -> Result<(), StakingError> {
    if m.pool_index(creator, pool_id) >= 0 {
        Err(StakingError::PoolAlreadyExists)
    } else {
        Ok(())
    }
}

/// The state after `create_pool`: a fresh pool with no stake, the initial
/// funding as its reward balance, and emergency mode off.
pub open spec fn create_pool_next(
    m: LedgerView,
    creator: u64,
    pool_id: u64,
    initial_funding_amount: u64,
    claim_cooldown: i64,
) -> LedgerView {
    if create_pool_result(m, creator, pool_id, initial_funding_amount, claim_cooldown) is Err {
        m
    } else {
        LedgerView {
            pools: m.pools.push(
                StakingPool {
                    pool_id,
                    creator,
                    current_tokens_staked: 0,
                    current_rewards: initial_funding_amount,
                    claim_cooldown,
                    emergency_mode_enabled: false,
                },
            ),
            ..m
        }
    }
}

/// What `fund_pool` returns: creator-only, and the reward balance must not
/// overflow.
pub open spec fn fund_pool_result(
    m: LedgerView,
    signer: u64,
    creator: u64,
    pool_id: u64,
    amount: u64,
) -> Result<(), StakingError> {
    let pi = m.pool_index(creator, pool_id);
    if pi == -1 {
        Err(StakingError::PoolNotFound)
    } else if m.pools[pi].creator != signer {
        Err(StakingError::UnauthorizedPoolAccess)
    } else if !fits_u64(m.pools[pi].current_rewards + amount) {
        Err(StakingError::ArithmeticOverflow)
    } else {
        Ok(())
    }
}

/// The state after `fund_pool`: the pool's reward balance grows by `amount`.
pub open spec fn fund_pool_next(
    m: LedgerView,
    signer: u64,
    creator: u64,
    pool_id: u64,
    amount: u64,
) -> LedgerView {
    if fund_pool_result(m, signer, creator, pool_id, amount) is Err {
        m
    } else {
        let pi = m.pool_index(creator, pool_id);
        let p = m.pools[pi];
        LedgerView {
            pools: m.pools.update(
                pi,
                StakingPool { current_rewards: (p.current_rewards + amount) as u64, ..p },
            ),
            ..m
        }
    }
}

/// What `enable_emergency_mode` returns: creator-only, one-way.
pub open spec fn enable_emergency_mode_result(
    m: LedgerView,
    signer: u64,
    creator: u64,
    pool_id: u64,
) -> Result<(), StakingError> {
    let pi = m.pool_index(creator, pool_id);
    if pi == -1 {
        Err(StakingError::PoolNotFound)
    } else if m.pools[pi].creator != signer {
        Err(StakingError::UnauthorizedPoolAccess)
    } else if m.pools[pi].emergency_mode_enabled {
        Err(StakingError::EmergencyModeAlreadyEnabled)
    } else {
        Ok(())
    }
}

/// The state after `enable_emergency_mode`: the flag is set, never to be
/// cleared again.
pub open spec fn enable_emergency_mode_next(
    m: LedgerView,
    signer: u64,
    creator: u64,
    pool_id: u64,
) -> LedgerView {
    if enable_emergency_mode_result(m, signer, creator, pool_id) is Err {
        m
    } else {
        let pi = m.pool_index(creator, pool_id);
        let p = m.pools[pi];
        LedgerView {
            pools: m.pools.update(pi, StakingPool { emergency_mode_enabled: true, ..p }),
            ..m
        }
    }
}

/// What `change_pool_cooldown` returns: creator-only.
pub open spec fn change_pool_cooldown_result(
    m: LedgerView,
    signer: u64,
    creator: u64,
    pool_id: u64,
    new_cooldown: i64,
) -> Result<(), StakingError> {
    let pi = m.pool_index(creator, pool_id);
    if pi == -1 {
        Err(StakingError::PoolNotFound)
    } else if m.pools[pi].creator != signer {
        Err(StakingError::UnauthorizedPoolAccess)
    } else {
        Ok(())
    }
}

/// The state after `change_pool_cooldown`: only the pool's cooldown changes,
/// so cooldowns already activated keep their unlock time.
pub open spec fn change_pool_cooldown_next(
    m: LedgerView,
    signer: u64,
    creator: u64,
    pool_id: u64,
    new_cooldown: i64,
) -> LedgerView {
    if change_pool_cooldown_result(m, signer, creator, pool_id, new_cooldown) is Err {
        m
    } else {
        let pi = m.pool_index(creator, pool_id);
        let p = m.pools[pi];
        LedgerView {
            pools: m.pools.update(pi, StakingPool { claim_cooldown: new_cooldown, ..p }),
            ..m
        }
    }
}

/// What `stake` returns: the deposit key must be fresh, the amount positive,
/// the pool out of emergency mode, and no counter may overflow.
pub open spec fn stake_result(
    m: LedgerView,
    staker: u64,
    creator: u64,
    pool_id: u64,
    deposit_id: u64,
    amount: u64,
    now: i64,
) -> Result<(), StakingError> {
    let pi = m.pool_index(creator, pool_id);
    if pi == -1 {
        Err(StakingError::PoolNotFound)
    } else if m.deposit_index(staker, creator, pool_id, deposit_id) >= 0 {
        Err(StakingError::DepositAlreadyExists)
    } else if amount == 0 {
        Err(StakingError::InvalidDepositAmount)
    } else if m.pools[pi].emergency_mode_enabled {
        Err(StakingError::EmergencyModeEnabled)
    } else if !fits_i64(now + m.pools[pi].claim_cooldown) {
        Err(StakingError::ArithmeticOverflow)
    } else if !fits_u64(m.pools[pi].current_tokens_staked + amount) {
        Err(StakingError::ArithmeticOverflow)
    } else if !fits_u64(recorded_staker_total(m, staker) + amount) {
        Err(StakingError::ArithmeticOverflow)
    } else {
        Ok(())
    }
}

/// The state after `stake`: a new active deposit unlocking at
/// `now + claim_cooldown`, with the pool's and the staker's totals grown by
/// `amount`; the staker's aggregate record is created on first use.
pub open spec fn stake_next(
    m: LedgerView,
    staker: u64,
    creator: u64,
    pool_id: u64,
    deposit_id: u64,
    amount: u64,
    now: i64,
) -> LedgerView {
    if stake_result(m, staker, creator, pool_id, deposit_id, amount, now) is Err {
        m
    } else {
        let pi = m.pool_index(creator, pool_id);
        let p = m.pools[pi];
        let d = StakerDeposit {
            deposit_id,
            staker,
            pool_creator: creator,
            pool_id,
            tokens_deposited: amount,
            tokens_claimed: 0,
            unlock_timestamp: (now + p.claim_cooldown) as i64,
            is_withdrawn: false,
            is_cooldown_active: false,
        };
        let stats0 = if m.stats_index(staker) >= 0 {
            m.stats
        } else {
            m.stats.push(StakerStats { staker, total_staked: 0 })
        };
        let si = find_index(stats0, stats_key(staker));
        let t = stats0[si];
        LedgerView {
            pools: m.pools.update(
                pi,
                StakingPool {
                    current_tokens_staked: (p.current_tokens_staked + amount) as u64,
                    ..p
                },
            ),
            deposits: m.deposits.push(d),
            stats: stats0.update(
                si,
                StakerStats { total_staked: (t.total_staked + amount) as u64, ..t },
            ),
        }
    }
}

/// What `activate_cooldown` returns: single-use per deposit, refused once
/// withdrawn, and the unlock time must fit its type.
pub open spec fn activate_cooldown_result(
    m: LedgerView,
    staker: u64,
    creator: u64,
    pool_id: u64,
    deposit_id: u64,
    now: i64,
) -> Result<(), StakingError> {
    let di = m.deposit_index(staker, creator, pool_id, deposit_id);
    let pi = m.pool_index(creator, pool_id);
    if di == -1 {
        Err(StakingError::DepositNotFound)
    } else if pi == -1 {
        Err(StakingError::PoolNotFound)
    } else if m.deposits[di].is_withdrawn {
        Err(StakingError::DepositAlreadyWithdrawn)
    } else if m.deposits[di].is_cooldown_active {
        Err(StakingError::CooldownAlreadyActivated)
    } else if !fits_i64(now + m.pools[pi].claim_cooldown) {
        Err(StakingError::ArithmeticOverflow)
    } else {
        Ok(())
    }
}

/// The state after `activate_cooldown`: the deposit is armed and its unlock
/// time is recomputed from the pool's current cooldown.
pub open spec fn activate_cooldown_next(
    m: LedgerView,
    staker: u64,
    creator: u64,
    pool_id: u64,
    deposit_id: u64,
    now: i64,
) -> LedgerView {
    if activate_cooldown_result(m, staker, creator, pool_id, deposit_id, now) is Err {
        m
    } else {
        let di = m.deposit_index(staker, creator, pool_id, deposit_id);
        let pi = m.pool_index(creator, pool_id);
        let d = m.deposits[di];
        LedgerView {
            deposits: m.deposits.update(
                di,
                StakerDeposit {
                    is_cooldown_active: true,
                    unlock_timestamp: (now + m.pools[pi].claim_cooldown) as i64,
                    ..d
                },
            ),
            ..m
        }
    }
}

/// What `unstake` returns on success: the principal and the proportional
/// reward `floor(principal * current_rewards / current_tokens_staked)`.
pub open spec fn unstake_result(
    m: LedgerView,
    staker: u64,
    creator: u64,
    pool_id: u64,
    deposit_id: u64,
    now: i64,
) -> Result<(u64, u64), StakingError> {
    let di = m.deposit_index(staker, creator, pool_id, deposit_id);
    let pi = m.pool_index(creator, pool_id);
    if di == -1 {
        Err(StakingError::DepositNotFound)
    } else if pi == -1 {
        Err(StakingError::PoolNotFound)
    } else if m.pools[pi].emergency_mode_enabled {
        Err(StakingError::EmergencyModeEnabled)
    } else if m.deposits[di].is_withdrawn {
        Err(StakingError::DepositAlreadyWithdrawn)
    } else if !m.deposits[di].is_cooldown_active {
        Err(StakingError::ClaimCooldownNotActive)
    } else if now < m.deposits[di].unlock_timestamp {
        Err(StakingError::ClaimCooldownNotElapsed)
    } else {
        let d = m.deposits[di];
        let p = m.pools[pi];
        Ok(
            (
                d.tokens_deposited,
                proportional_reward(
                    p.current_tokens_staked,
                    d.tokens_deposited,
                    p.current_rewards,
                ) as u64,
            ),
        )
    }
}

/// The state after `unstake`: the deposit is terminally withdrawn with its
/// reward recorded, and the principal and reward leave the pool's counters.
pub open spec fn unstake_next(
    m: LedgerView,
    staker: u64,
    creator: u64,
    pool_id: u64,
    deposit_id: u64,
    now: i64,
) -> LedgerView {
    if unstake_result(m, staker, creator, pool_id, deposit_id, now) is Err {
        m
    } else {
        let di = m.deposit_index(staker, creator, pool_id, deposit_id);
        let pi = m.pool_index(creator, pool_id);
        let si = m.stats_index(staker);
        let d = m.deposits[di];
        let p = m.pools[pi];
        let t = m.stats[si];
        let reward = proportional_reward(
            p.current_tokens_staked,
            d.tokens_deposited,
            p.current_rewards,
        ) as u64;
        LedgerView {
            pools: m.pools.update(
                pi,
                StakingPool {
                    current_tokens_staked: (p.current_tokens_staked - d.tokens_deposited) as u64,
                    current_rewards: (p.current_rewards - reward) as u64,
                    ..p
                },
            ),
            deposits: m.deposits.update(
                di,
                StakerDeposit { is_withdrawn: true, tokens_claimed: reward, ..d },
            ),
            stats: m.stats.update(
                si,
                StakerStats { total_staked: (t.total_staked - d.tokens_deposited) as u64, ..t },
            ),
        }
    }
}

/// What `unstake_emergency` returns on success: the principal alone, with no
/// reward and no cooldown gating.
pub open spec fn unstake_emergency_result(
    m: LedgerView,
    staker: u64,
    creator: u64,
    pool_id: u64,
    deposit_id: u64,
) -> Result<u64, StakingError> {
    let di = m.deposit_index(staker, creator, pool_id, deposit_id);
    let pi = m.pool_index(creator, pool_id);
    if di == -1 {
        Err(StakingError::DepositNotFound)
    } else if pi == -1 {
        Err(StakingError::PoolNotFound)
    } else if !m.pools[pi].emergency_mode_enabled {
        Err(StakingError::EmergencyModeNotEnabled)
    } else if m.deposits[di].is_withdrawn {
        Err(StakingError::DepositAlreadyWithdrawn)
    } else {
        Ok(m.deposits[di].tokens_deposited)
    }
}

/// The state after `unstake_emergency`: the deposit is terminally withdrawn
/// and the principal leaves the staked counters; the reward balance is
/// untouched.
pub open spec fn unstake_emergency_next(
    m: LedgerView,
    staker: u64,
    creator: u64,
    pool_id: u64,
    deposit_id: u64,
) -> LedgerView {
    if unstake_emergency_result(m, staker, creator, pool_id, deposit_id) is Err {
        m
    } else {
        let di = m.deposit_index(staker, creator, pool_id, deposit_id);
        let pi = m.pool_index(creator, pool_id);
        let si = m.stats_index(staker);
        let d = m.deposits[di];
        let p = m.pools[pi];
        let t = m.stats[si];
        LedgerView {
            pools: m.pools.update(
                pi,
                StakingPool {
                    current_tokens_staked: (p.current_tokens_staked - d.tokens_deposited) as u64,
                    ..p
                },
            ),
            deposits: m.deposits.update(di, StakerDeposit { is_withdrawn: true, ..d }),
            stats: m.stats.update(
                si,
                StakerStats { total_staked: (t.total_staked - d.tokens_deposited) as u64, ..t },
            ),
        }
    }
}

/// What `withdraw_rewards_emergency` returns on success: the entire reward
/// balance as captured before it is zeroed.
pub open spec fn withdraw_rewards_emergency_result(
    m: LedgerView,
    signer: u64,
    creator: u64,
    pool_id: u64,
) -> Result<u64, StakingError> {
    let pi = m.pool_index(creator, pool_id);
    if pi == -1 {
        Err(StakingError::PoolNotFound)
    } else if m.pools[pi].creator != signer {
        Err(StakingError::UnauthorizedPoolAccess)
    } else if !m.pools[pi].emergency_mode_enabled {
        Err(StakingError::EmergencyModeNotEnabled)
    } else {
        Ok(m.pools[pi].current_rewards)
    }
}

/// The state after `withdraw_rewards_emergency`: the reward balance is zero.
pub open spec fn withdraw_rewards_emergency_next(
    m: LedgerView,
    signer: u64,
    creator: u64,
    pool_id: u64,
) -> LedgerView {
    if withdraw_rewards_emergency_result(m, signer, creator, pool_id) is Err {
        m
    } else {
        let pi = m.pool_index(creator, pool_id);
        let p = m.pools[pi];
        LedgerView {
            pools: m.pools.update(pi, StakingPool { current_rewards: 0, ..p }),
            ..m
        }
    }
}

/// One operation of the ledger, with its inputs.
pub enum Op {
    CreatePool { creator: u64, pool_id: u64, initial_funding_amount: u64, claim_cooldown: i64 },
    FundPool { signer: u64, creator: u64, pool_id: u64, amount: u64 },
    EnableEmergencyMode { signer: u64, creator: u64, pool_id: u64 },
    ChangePoolCooldown { signer: u64, creator: u64, pool_id: u64, new_cooldown: i64 },
    Stake { staker: u64, creator: u64, pool_id: u64, deposit_id: u64, amount: u64 },
    ActivateCooldown { staker: u64, creator: u64, pool_id: u64, deposit_id: u64 },
    Unstake { staker: u64, creator: u64, pool_id: u64, deposit_id: u64 },
    UnstakeEmergency { staker: u64, creator: u64, pool_id: u64, deposit_id: u64 },
    WithdrawRewardsEmergency { signer: u64, creator: u64, pool_id: u64 },
}

/// The state after applying any one operation at time `now`.
pub open spec fn step(m: LedgerView, op: Op, now: i64) -> LedgerView {
    match op {
        Op::CreatePool { creator, pool_id, initial_funding_amount, claim_cooldown } =>
            create_pool_next(m, creator, pool_id, initial_funding_amount, claim_cooldown),
        Op::FundPool { signer, creator, pool_id, amount } => fund_pool_next(
            m,
            signer,
            creator,
            pool_id,
            amount,
        ),
        Op::EnableEmergencyMode { signer, creator, pool_id } => enable_emergency_mode_next(
            m,
            signer,
            creator,
            pool_id,
        ),
        Op::ChangePoolCooldown { signer, creator, pool_id, new_cooldown } =>
            change_pool_cooldown_next(m, signer, creator, pool_id, new_cooldown),
        Op::Stake { staker, creator, pool_id, deposit_id, amount } => stake_next(
            m,
            staker,
            creator,
            pool_id,
            deposit_id,
            amount,
            now,
        ),
        Op::ActivateCooldown { staker, creator, pool_id, deposit_id } => activate_cooldown_next(
            m,
            staker,
            creator,
            pool_id,
            deposit_id,
            now,
        ),
        Op::Unstake { staker, creator, pool_id, deposit_id } => unstake_next(
            m,
            staker,
            creator,
            pool_id,
            deposit_id,
            now,
        ),
        Op::UnstakeEmergency { staker, creator, pool_id, deposit_id } => unstake_emergency_next(
            m,
            staker,
            creator,
            pool_id,
            deposit_id,
        ),
        Op::WithdrawRewardsEmergency { signer, creator, pool_id } =>
            withdraw_rewards_emergency_next(m, signer, creator, pool_id),
    }
}

} // verus!
