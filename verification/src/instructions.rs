//! The per-record computation of each operation.
//!
//! A host that stores each record separately — resolving a pool, a deposit,
//! and a staker aggregate by their keys before an operation — needs only
//! these functions: each takes the referenced records as plain values,
//! performs every check and every field update of one operation, and
//! returns the amounts the host must transfer.  [`crate::ledger`] applies
//! the same functions to the records of its indexed store, so the two
//! layers cannot drift apart.
//!
//! The callers guarantee (and the store's invariant proves) that an active
//! deposit's principal never exceeds its pool's staked counter or its
//! owner's aggregate; the withdrawal functions state that as their only
//! precondition.

use vstd::prelude::*;

use crate::errors::StakingError;
use crate::records::{StakerDeposit, StakerStats, StakingPool};
use crate::reward::{economy_estimate_rewards, proportional_reward};
use crate::transitions::{fits_i64, fits_u64};

verus! {

/// A freshly created pool: nothing staked, the initial funding as its
/// reward balance, emergency mode off.
pub fn init_pool(creator: u64, pool_id: u64, initial_funding_amount: u64, claim_cooldown: i64) -> (
    p: StakingPool)
    ensures
        p == (StakingPool {
            pool_id,
            creator,
            current_tokens_staked: 0,
            current_rewards: initial_funding_amount,
            claim_cooldown,
            emergency_mode_enabled: false,
        }),
{
    StakingPool {
        pool_id,
        creator,
        current_tokens_staked: 0,
        current_rewards: initial_funding_amount,
        claim_cooldown,
        emergency_mode_enabled: false,
    }
}

/// Adds `amount` to the pool's reward balance; creator-only.
pub fn fund_pool_record(pool: &mut StakingPool, signer: u64, amount: u64) -> (r: Result<
    (),
    StakingError,
>)
    ensures
        old(pool).creator != signer ==> r == Err::<(), StakingError>(
            StakingError::UnauthorizedPoolAccess,
        ) && *final(pool) == *old(pool),
        old(pool).creator == signer && !fits_u64(old(pool).current_rewards + amount) ==> r == Err::<
            (),
            StakingError,
        >(StakingError::ArithmeticOverflow) && *final(pool) == *old(pool),
        old(pool).creator == signer && fits_u64(old(pool).current_rewards + amount) ==> r == Ok::<
            (),
            StakingError,
        >(()) && *final(pool) == (StakingPool {
            current_rewards: (old(pool).current_rewards + amount) as u64,
            ..*old(pool)
        }),
{
    if pool.creator != signer {
        return Err(StakingError::UnauthorizedPoolAccess);
    }
    match pool.current_rewards.checked_add(amount) {
        Some(v) => {
            pool.current_rewards = v;
            Ok(())
        },
        None => Err(StakingError::ArithmeticOverflow),
    }
}

/// Switches the pool into emergency mode; creator-only, one-way.
pub fn enable_emergency_mode_record(pool: &mut StakingPool, signer: u64) -> (r: Result<
    (),
    StakingError,
>)
    ensures
        old(pool).creator != signer ==> r == Err::<(), StakingError>(
            StakingError::UnauthorizedPoolAccess,
        ) && *final(pool) == *old(pool),
        old(pool).creator == signer && old(pool).emergency_mode_enabled ==> r == Err::<
            (),
            StakingError,
        >(StakingError::EmergencyModeAlreadyEnabled) && *final(pool) == *old(pool),
        old(pool).creator == signer && !old(pool).emergency_mode_enabled ==> r == Ok::<
            (),
            StakingError,
        >(()) && *final(pool) == (StakingPool { emergency_mode_enabled: true, ..*old(pool) }),
{
    if pool.creator != signer {
        return Err(StakingError::UnauthorizedPoolAccess);
    }
    if pool.emergency_mode_enabled {
        return Err(StakingError::EmergencyModeAlreadyEnabled);
    }
    pool.emergency_mode_enabled = true;
    Ok(())
}

/// Changes the pool's cooldown duration; creator-only.
pub fn change_pool_cooldown_record(pool: &mut StakingPool, signer: u64, new_cooldown: i64) -> (r:
    Result<(), StakingError>)
    ensures
        old(pool).creator != signer ==> r == Err::<(), StakingError>(
            StakingError::UnauthorizedPoolAccess,
        ) && *final(pool) == *old(pool),
        old(pool).creator == signer ==> r == Ok::<(), StakingError>(()) && *final(pool) == (
        StakingPool { claim_cooldown: new_cooldown, ..*old(pool) }),
{
    if pool.creator != signer {
        return Err(StakingError::UnauthorizedPoolAccess);
    }
    pool.claim_cooldown = new_cooldown;
    Ok(())
}

/// Drains the whole reward balance; creator-only, emergency mode only.
/// Returns the captured balance; the pool's balance is zero afterwards.
pub fn withdraw_rewards_emergency_record(pool: &mut StakingPool, signer: u64) -> (r: Result<
    u64,
    StakingError,
>)
    ensures
        old(pool).creator != signer ==> r == Err::<u64, StakingError>(
            StakingError::UnauthorizedPoolAccess,
        ) && *final(pool) == *old(pool),
        old(pool).creator == signer && !old(pool).emergency_mode_enabled ==> r == Err::<
            u64,
            StakingError,
        >(StakingError::EmergencyModeNotEnabled) && *final(pool) == *old(pool),
        old(pool).creator == signer && old(pool).emergency_mode_enabled ==> r == Ok::<
            u64,
            StakingError,
        >(old(pool).current_rewards) && *final(pool) == (StakingPool {
            current_rewards: 0,
            ..*old(pool)
        }),
{
    if pool.creator != signer {
        return Err(StakingError::UnauthorizedPoolAccess);
    }
    if !pool.emergency_mode_enabled {
        return Err(StakingError::EmergencyModeNotEnabled);
    }
    let drained = pool.current_rewards;
    pool.current_rewards = 0;
    Ok(drained)
}

/// Records a new deposit: checks the amount, the emergency flag, and every
/// counter, then adds the principal to the pool's staked counter and the
/// staker's aggregate.  Returns the deposit record to store; the host has
/// already checked that its key is fresh.
pub fn stake_record(
    pool: &mut StakingPool,
    stats: &mut StakerStats,
    staker: u64,
    deposit_id: u64,
    amount: u64,
    now: i64,
) -> (r: Result<StakerDeposit, StakingError>)
    ensures
        amount == 0 ==> r == Err::<StakerDeposit, StakingError>(StakingError::InvalidDepositAmount)
            && *final(pool) == *old(pool) && *final(stats) == *old(stats),
        amount > 0 && old(pool).emergency_mode_enabled ==> r == Err::<StakerDeposit, StakingError>(
            StakingError::EmergencyModeEnabled,
        ) && *final(pool) == *old(pool) && *final(stats) == *old(stats),
        amount > 0 && !old(pool).emergency_mode_enabled && !(fits_i64(
            now + old(pool).claim_cooldown,
        ) && fits_u64(old(pool).current_tokens_staked + amount) && fits_u64(
            old(stats).total_staked + amount,
        )) ==> r == Err::<StakerDeposit, StakingError>(StakingError::ArithmeticOverflow) && *final(pool) == *old(pool) && *final(stats) == *old(stats),
        amount > 0 && !old(pool).emergency_mode_enabled && fits_i64(now + old(pool).claim_cooldown)
            && fits_u64(old(pool).current_tokens_staked + amount) && fits_u64(
            old(stats).total_staked + amount,
        ) ==> r == Ok::<StakerDeposit, StakingError>(
            StakerDeposit {
                deposit_id,
                staker,
                pool_creator: old(pool).creator,
                pool_id: old(pool).pool_id,
                tokens_deposited: amount,
                tokens_claimed: 0,
                unlock_timestamp: (now + old(pool).claim_cooldown) as i64,
                is_withdrawn: false,
                is_cooldown_active: false,
            },
        ) && *final(pool) == (StakingPool {
            current_tokens_staked: (old(pool).current_tokens_staked + amount) as u64,
            ..*old(pool)
        }) && *final(stats) == (StakerStats {
            staker,
            total_staked: (old(stats).total_staked + amount) as u64,
        }),
{
    if amount == 0 {
        return Err(StakingError::InvalidDepositAmount);
    }
    if pool.emergency_mode_enabled {
        return Err(StakingError::EmergencyModeEnabled);
    }
    let unlock = match now.checked_add(pool.claim_cooldown) {
        Some(u) => u,
        None => {
            return Err(StakingError::ArithmeticOverflow);
        },
    };
    let new_pool_staked = match pool.current_tokens_staked.checked_add(amount) {
        Some(v) => v,
        None => {
            return Err(StakingError::ArithmeticOverflow);
        },
    };
    let new_staker_total = match stats.total_staked.checked_add(amount) {
        Some(v) => v,
        None => {
            return Err(StakingError::ArithmeticOverflow);
        },
    };
    pool.current_tokens_staked = new_pool_staked;
    stats.staker = staker;
    stats.total_staked = new_staker_total;
    Ok(
        StakerDeposit {
            deposit_id,
            staker,
            pool_creator: pool.creator,
            pool_id: pool.pool_id,
            tokens_deposited: amount,
            tokens_claimed: 0,
            unlock_timestamp: unlock,
            is_withdrawn: false,
            is_cooldown_active: false,
        },
    )
}

/// Arms a deposit's cooldown — single-use — and sets its unlock time to
/// `now` plus the pool's current cooldown.
pub fn activate_cooldown_record(deposit: &mut StakerDeposit, pool: &StakingPool, now: i64) -> (r:
    Result<(), StakingError>)
    ensures
        old(deposit).is_withdrawn ==> r == Err::<(), StakingError>(
            StakingError::DepositAlreadyWithdrawn,
        ) && *final(deposit) == *old(deposit),
        !old(deposit).is_withdrawn && old(deposit).is_cooldown_active ==> r == Err::<
            (),
            StakingError,
        >(StakingError::CooldownAlreadyActivated) && *final(deposit) == *old(deposit),
        !old(deposit).is_withdrawn && !old(deposit).is_cooldown_active && !fits_i64(
            now + pool.claim_cooldown,
        ) ==> r == Err::<(), StakingError>(StakingError::ArithmeticOverflow) && *final(deposit)
            == *old(deposit),
        !old(deposit).is_withdrawn && !old(deposit).is_cooldown_active && fits_i64(
            now + pool.claim_cooldown,
        ) ==> r == Ok::<(), StakingError>(()) && *final(deposit) == (StakerDeposit {
            is_cooldown_active: true,
            unlock_timestamp: (now + pool.claim_cooldown) as i64,
            ..*old(deposit)
        }),
{
    if deposit.is_withdrawn {
        return Err(StakingError::DepositAlreadyWithdrawn);
    }
    if deposit.is_cooldown_active {
        return Err(StakingError::CooldownAlreadyActivated);
    }
    let unlock = match now.checked_add(pool.claim_cooldown) {
        Some(u) => u,
        None => {
            return Err(StakingError::ArithmeticOverflow);
        },
    };
    deposit.is_cooldown_active = true;
    deposit.unlock_timestamp = unlock;
    Ok(())
}

/// The gated, reward-bearing exit: after the checks, marks the deposit
/// withdrawn, records the proportional reward, and removes the principal
/// from the pool's staked counter and the owner's aggregate.  Returns
/// `(principal, reward)` for the host to transfer.
pub fn unstake_record(
    pool: &mut StakingPool,
    deposit: &mut StakerDeposit,
    stats: &mut StakerStats,
    now: i64,
) -> (r: Result<(u64, u64), StakingError>)
    requires
        !old(deposit).is_withdrawn ==> 0 < old(deposit).tokens_deposited <= old(pool).current_tokens_staked && old(deposit).tokens_deposited <= old(stats).total_staked,
    ensures
        old(pool).emergency_mode_enabled ==> r == Err::<(u64, u64), StakingError>(
            StakingError::EmergencyModeEnabled,
        ) && *final(pool) == *old(pool) && *final(deposit) == *old(deposit) && *final(stats) == *old(stats),
        !old(pool).emergency_mode_enabled && old(deposit).is_withdrawn ==> r == Err::<
            (u64, u64),
            StakingError,
        >(StakingError::DepositAlreadyWithdrawn) && *final(pool) == *old(pool) && *final(deposit)
            == *old(deposit) && *final(stats) == *old(stats),
        !old(pool).emergency_mode_enabled && !old(deposit).is_withdrawn && !old(deposit).is_cooldown_active ==> r == Err::<(u64, u64), StakingError>(
            StakingError::ClaimCooldownNotActive,
        ) && *final(pool) == *old(pool) && *final(deposit) == *old(deposit) && *final(stats) == *old(stats),
        !old(pool).emergency_mode_enabled && !old(deposit).is_withdrawn && old(deposit).is_cooldown_active && now < old(deposit).unlock_timestamp ==> r == Err::<
            (u64, u64),
            StakingError,
        >(StakingError::ClaimCooldownNotElapsed) && *final(pool) == *old(pool) && *final(deposit)
            == *old(deposit) && *final(stats) == *old(stats),
        !old(pool).emergency_mode_enabled && !old(deposit).is_withdrawn && old(deposit).is_cooldown_active && now >= old(deposit).unlock_timestamp ==> ({
            let reward = proportional_reward(
                old(pool).current_tokens_staked,
                old(deposit).tokens_deposited,
                old(pool).current_rewards,
            ) as u64;
            &&& r == Ok::<(u64, u64), StakingError>((old(deposit).tokens_deposited, reward))
            &&& *final(pool) == (StakingPool {
                current_tokens_staked: (old(pool).current_tokens_staked - old(deposit).tokens_deposited) as u64,
                current_rewards: (old(pool).current_rewards - reward) as u64,
                ..*old(pool)
            })
            &&& *final(deposit) == (StakerDeposit {
                is_withdrawn: true,
                tokens_claimed: reward,
                ..*old(deposit)
            })
            &&& *final(stats) == (StakerStats {
                total_staked: (old(stats).total_staked - old(deposit).tokens_deposited) as u64,
                ..*old(stats)
            })
        }),
{
    if pool.emergency_mode_enabled {
        return Err(StakingError::EmergencyModeEnabled);
    }
    if deposit.is_withdrawn {
        return Err(StakingError::DepositAlreadyWithdrawn);
    }
    if !deposit.is_cooldown_active {
        return Err(StakingError::ClaimCooldownNotActive);
    }
    if now < deposit.unlock_timestamp {
        return Err(StakingError::ClaimCooldownNotElapsed);
    }
    let principal = deposit.tokens_deposited;
    let reward = economy_estimate_rewards(pool.current_tokens_staked, principal, pool.current_rewards);
    deposit.is_withdrawn = true;
    deposit.tokens_claimed = reward;
    stats.total_staked = stats.total_staked - principal;
    pool.current_rewards = pool.current_rewards - reward;
    pool.current_tokens_staked = pool.current_tokens_staked - principal;
    Ok((principal, reward))
}

/// The immediate, principal-only exit, valid only in emergency mode: marks
/// the deposit withdrawn and removes the principal from both counters.
/// Returns the principal for the host to transfer.
pub fn unstake_emergency_record(
    pool: &mut StakingPool,
    deposit: &mut StakerDeposit,
    stats: &mut StakerStats,
) -> (r: Result<u64, StakingError>)
    requires
        !old(deposit).is_withdrawn ==> old(deposit).tokens_deposited <= old(pool).current_tokens_staked && old(deposit).tokens_deposited <= old(stats).total_staked,
    ensures
        !old(pool).emergency_mode_enabled ==> r == Err::<u64, StakingError>(
            StakingError::EmergencyModeNotEnabled,
        ) && *final(pool) == *old(pool) && *final(deposit) == *old(deposit) && *final(stats) == *old(stats),
        old(pool).emergency_mode_enabled && old(deposit).is_withdrawn ==> r == Err::<
            u64,
            StakingError,
        >(StakingError::DepositAlreadyWithdrawn) && *final(pool) == *old(pool) && *final(deposit)
            == *old(deposit) && *final(stats) == *old(stats),
        old(pool).emergency_mode_enabled && !old(deposit).is_withdrawn ==> r == Ok::<
            u64,
            StakingError,
        >(old(deposit).tokens_deposited) && *final(pool) == (StakingPool {
            current_tokens_staked: (old(pool).current_tokens_staked - old(deposit).tokens_deposited) as u64,
            ..*old(pool)
        }) && *final(deposit) == (StakerDeposit { is_withdrawn: true, ..*old(deposit) }) && *final(stats) == (StakerStats {
            total_staked: (old(stats).total_staked - old(deposit).tokens_deposited) as u64,
            ..*old(stats)
        }),
{
    if !pool.emergency_mode_enabled {
        return Err(StakingError::EmergencyModeNotEnabled);
    }
    if deposit.is_withdrawn {
        return Err(StakingError::DepositAlreadyWithdrawn);
    }
    let principal = deposit.tokens_deposited;
    deposit.is_withdrawn = true;
    stats.total_staked = stats.total_staked - principal;
    pool.current_tokens_staked = pool.current_tokens_staked - principal;
    Ok(principal)
}

} // verus!
