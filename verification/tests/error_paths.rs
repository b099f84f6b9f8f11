//! Every error variant, produced by an input that earns it, and the
//! terminal-flag and emergency-exclusivity behaviour.

use staking::errors::StakingError;
use staking::ledger::StakingLedger;

const CREATOR: u64 = 1;
const OTHER: u64 = 2;
const STAKER: u64 = 10;
const POOL: u64 = 7;

#[test]
fn duplicate_pool_is_refused() {
    let mut ledger = StakingLedger::new();
    assert_eq!(ledger.create_pool(CREATOR, POOL, 0, 10), Ok(()));
    assert_eq!(
        ledger.create_pool(CREATOR, POOL, 5, 20),
        Err(StakingError::PoolAlreadyExists)
    );
    // The same id under another creator is a different pool.
    assert_eq!(ledger.create_pool(OTHER, POOL, 0, 10), Ok(()));
}

#[test]
fn operations_on_missing_pool_fail() {
    let mut ledger = StakingLedger::new();
    assert_eq!(ledger.fund_pool(CREATOR, CREATOR, POOL, 5), Err(StakingError::PoolNotFound));
    assert_eq!(
        ledger.enable_emergency_mode(CREATOR, CREATOR, POOL),
        Err(StakingError::PoolNotFound)
    );
    assert_eq!(
        ledger.change_pool_cooldown(CREATOR, CREATOR, POOL, 1),
        Err(StakingError::PoolNotFound)
    );
    assert_eq!(
        ledger.withdraw_rewards_emergency(CREATOR, CREATOR, POOL),
        Err(StakingError::PoolNotFound)
    );
    assert_eq!(ledger.stake(STAKER, CREATOR, POOL, 1, 5, 0), Err(StakingError::PoolNotFound));
    assert!(ledger.get_pool(CREATOR, POOL).is_none());
}

#[test]
fn creator_only_operations_reject_others() {
    let mut ledger = StakingLedger::new();
    assert_eq!(ledger.create_pool(CREATOR, POOL, 100, 10), Ok(()));
    assert_eq!(
        ledger.fund_pool(OTHER, CREATOR, POOL, 5),
        Err(StakingError::UnauthorizedPoolAccess)
    );
    assert_eq!(
        ledger.enable_emergency_mode(OTHER, CREATOR, POOL),
        Err(StakingError::UnauthorizedPoolAccess)
    );
    assert_eq!(
        ledger.change_pool_cooldown(OTHER, CREATOR, POOL, 1),
        Err(StakingError::UnauthorizedPoolAccess)
    );
    assert_eq!(
        ledger.withdraw_rewards_emergency(OTHER, CREATOR, POOL),
        Err(StakingError::UnauthorizedPoolAccess)
    );
    // Nothing changed.
    let pool = ledger.get_pool(CREATOR, POOL).unwrap();
    assert_eq!(pool.current_rewards, 100);
    assert_eq!(pool.claim_cooldown, 10);
    assert!(!pool.emergency_mode_enabled);
}

#[test]
fn funding_accumulates_and_overflow_is_refused() {
    let mut ledger = StakingLedger::new();
    assert_eq!(ledger.create_pool(CREATOR, POOL, u64::MAX - 10, 0), Ok(()));
    assert_eq!(ledger.fund_pool(CREATOR, CREATOR, POOL, 10), Ok(()));
    assert_eq!(ledger.get_pool(CREATOR, POOL).unwrap().current_rewards, u64::MAX);
    assert_eq!(
        ledger.fund_pool(CREATOR, CREATOR, POOL, 1),
        Err(StakingError::ArithmeticOverflow)
    );
    assert_eq!(ledger.get_pool(CREATOR, POOL).unwrap().current_rewards, u64::MAX);
}

#[test]
fn emergency_mode_is_one_way() {
    let mut ledger = StakingLedger::new();
    assert_eq!(ledger.create_pool(CREATOR, POOL, 0, 0), Ok(()));
    assert_eq!(ledger.enable_emergency_mode(CREATOR, CREATOR, POOL), Ok(()));
    assert!(ledger.get_pool(CREATOR, POOL).unwrap().emergency_mode_enabled);
    assert_eq!(
        ledger.enable_emergency_mode(CREATOR, CREATOR, POOL),
        Err(StakingError::EmergencyModeAlreadyEnabled)
    );
    assert!(ledger.get_pool(CREATOR, POOL).unwrap().emergency_mode_enabled);
}

#[test]
fn stake_validation_errors() {
    let mut ledger = StakingLedger::new();
    assert_eq!(ledger.create_pool(CREATOR, POOL, 0, 10), Ok(()));
    assert_eq!(ledger.stake(STAKER, CREATOR, POOL, 1, 5, 0), Ok(()));
    assert_eq!(
        ledger.stake(STAKER, CREATOR, POOL, 1, 5, 0),
        Err(StakingError::DepositAlreadyExists)
    );
    assert_eq!(
        ledger.stake(STAKER, CREATOR, POOL, 2, 0, 0),
        Err(StakingError::InvalidDepositAmount)
    );
    assert_eq!(
        ledger.stake(STAKER, CREATOR, POOL, 2, 5, i64::MAX),
        Err(StakingError::ArithmeticOverflow)
    );
}

#[test]
fn stake_counter_overflows_are_refused() {
    let mut ledger = StakingLedger::new();
    assert_eq!(ledger.create_pool(CREATOR, 1, 0, 0), Ok(()));
    assert_eq!(ledger.create_pool(CREATOR, 2, 0, 0), Ok(()));
    assert_eq!(ledger.stake(STAKER, CREATOR, 1, 1, u64::MAX, 0), Ok(()));
    // The pool's staked counter would overflow.
    assert_eq!(
        ledger.stake(OTHER, CREATOR, 1, 1, 1, 0),
        Err(StakingError::ArithmeticOverflow)
    );
    // The staker's aggregate, summed across pools, would overflow.
    assert_eq!(
        ledger.stake(STAKER, CREATOR, 2, 1, 1, 0),
        Err(StakingError::ArithmeticOverflow)
    );
    assert_eq!(ledger.get_staker_stats(STAKER).unwrap().total_staked, u64::MAX);
}

#[test]
fn activate_cooldown_errors() {
    let mut ledger = StakingLedger::new();
    assert_eq!(ledger.create_pool(CREATOR, POOL, 0, i64::MAX), Ok(()));
    assert_eq!(
        ledger.activate_cooldown(STAKER, CREATOR, POOL, 1, 0),
        Err(StakingError::DepositNotFound)
    );
    assert_eq!(ledger.stake(STAKER, CREATOR, POOL, 1, 5, 0), Ok(()));
    assert_eq!(
        ledger.activate_cooldown(STAKER, CREATOR, POOL, 1, 1),
        Err(StakingError::ArithmeticOverflow)
    );
    assert_eq!(ledger.activate_cooldown(STAKER, CREATOR, POOL, 1, 0), Ok(()));
}

#[test]
fn unstake_requires_activation_then_elapsed_cooldown() {
    let mut ledger = StakingLedger::new();
    assert_eq!(ledger.create_pool(CREATOR, POOL, 100, 50), Ok(()));
    assert_eq!(ledger.stake(STAKER, CREATOR, POOL, 1, 5, 0), Ok(()));
    assert_eq!(
        ledger.unstake(STAKER, CREATOR, POOL, 1, 1000),
        Err(StakingError::ClaimCooldownNotActive)
    );
    assert_eq!(ledger.activate_cooldown(STAKER, CREATOR, POOL, 1, 10), Ok(()));
    assert_eq!(
        ledger.unstake(STAKER, CREATOR, POOL, 1, 59),
        Err(StakingError::ClaimCooldownNotElapsed)
    );
    assert_eq!(ledger.unstake(STAKER, CREATOR, POOL, 1, 60), Ok((5, 100)));
}

#[test]
fn unstake_is_terminal() {
    let mut ledger = StakingLedger::new();
    assert_eq!(ledger.create_pool(CREATOR, POOL, 100, 0), Ok(()));
    assert_eq!(ledger.stake(STAKER, CREATOR, POOL, 1, 5, 0), Ok(()));
    assert_eq!(ledger.activate_cooldown(STAKER, CREATOR, POOL, 1, 0), Ok(()));
    assert_eq!(ledger.unstake(STAKER, CREATOR, POOL, 1, 0), Ok((5, 100)));

    let after_first = ledger.get_pool(CREATOR, POOL).unwrap();
    assert_eq!(
        ledger.unstake(STAKER, CREATOR, POOL, 1, 0),
        Err(StakingError::DepositAlreadyWithdrawn)
    );
    assert_eq!(
        ledger.activate_cooldown(STAKER, CREATOR, POOL, 1, 0),
        Err(StakingError::DepositAlreadyWithdrawn)
    );
    assert_eq!(ledger.get_pool(CREATOR, POOL).unwrap(), after_first);
    assert_eq!(ledger.get_staker_stats(STAKER).unwrap().total_staked, 0);
}

#[test]
fn emergency_unstake_is_terminal() {
    let mut ledger = StakingLedger::new();
    assert_eq!(ledger.create_pool(CREATOR, POOL, 100, 0), Ok(()));
    assert_eq!(ledger.stake(STAKER, CREATOR, POOL, 1, 5, 0), Ok(()));
    assert_eq!(ledger.enable_emergency_mode(CREATOR, CREATOR, POOL), Ok(()));
    assert_eq!(ledger.unstake_emergency(STAKER, CREATOR, POOL, 1), Ok(5));
    let after_first = ledger.get_pool(CREATOR, POOL).unwrap();
    assert_eq!(
        ledger.unstake_emergency(STAKER, CREATOR, POOL, 1),
        Err(StakingError::DepositAlreadyWithdrawn)
    );
    assert_eq!(ledger.get_pool(CREATOR, POOL).unwrap(), after_first);
}

#[test]
fn emergency_mode_blocks_stake_and_unstake() {
    let mut ledger = StakingLedger::new();
    assert_eq!(ledger.create_pool(CREATOR, POOL, 100, 0), Ok(()));
    assert_eq!(ledger.stake(STAKER, CREATOR, POOL, 1, 5, 0), Ok(()));
    assert_eq!(ledger.activate_cooldown(STAKER, CREATOR, POOL, 1, 0), Ok(()));
    assert_eq!(ledger.enable_emergency_mode(CREATOR, CREATOR, POOL), Ok(()));

    assert_eq!(
        ledger.stake(OTHER, CREATOR, POOL, 1, 5, 0),
        Err(StakingError::EmergencyModeEnabled)
    );
    // Even with an armed, elapsed cooldown, the normal exit is blocked...
    assert_eq!(
        ledger.unstake(STAKER, CREATOR, POOL, 1, 1000),
        Err(StakingError::EmergencyModeEnabled)
    );
    // ...while the emergency exit works with no cooldown at all.
    assert_eq!(ledger.unstake_emergency(STAKER, CREATOR, POOL, 1), Ok(5));
}

#[test]
fn emergency_exits_require_emergency_mode() {
    let mut ledger = StakingLedger::new();
    assert_eq!(ledger.create_pool(CREATOR, POOL, 100, 0), Ok(()));
    assert_eq!(ledger.stake(STAKER, CREATOR, POOL, 1, 5, 0), Ok(()));
    assert_eq!(
        ledger.unstake_emergency(STAKER, CREATOR, POOL, 1),
        Err(StakingError::EmergencyModeNotEnabled)
    );
    assert_eq!(
        ledger.withdraw_rewards_emergency(CREATOR, CREATOR, POOL),
        Err(StakingError::EmergencyModeNotEnabled)
    );
    assert_eq!(
        ledger.unstake_emergency(STAKER, CREATOR, POOL, 2),
        Err(StakingError::DepositNotFound)
    );
}

#[test]
fn reward_drain_happens_once() {
    let mut ledger = StakingLedger::new();
    assert_eq!(ledger.create_pool(CREATOR, POOL, 750, 0), Ok(()));
    assert_eq!(ledger.enable_emergency_mode(CREATOR, CREATOR, POOL), Ok(()));
    assert_eq!(ledger.withdraw_rewards_emergency(CREATOR, CREATOR, POOL), Ok(750));
    assert_eq!(ledger.withdraw_rewards_emergency(CREATOR, CREATOR, POOL), Ok(0));
    assert_eq!(ledger.get_pool(CREATOR, POOL).unwrap().current_rewards, 0);
}
