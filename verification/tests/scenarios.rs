//! End-to-end scenarios over the staking ledger.

use staking::errors::StakingError;
use staking::ledger::StakingLedger;

const CREATOR: u64 = 1;
const STAKER_A: u64 = 10;
const STAKER_B: u64 = 11;
const POOL: u64 = 7;

/// Pool funded with 1,000 reward units; A deposits 100, B deposits 300.
/// A unstakes: reward = floor(100 * 1000 / 400) = 250, so A receives the
/// principal 100 plus 250; the pool keeps 750 rewards and 300 staked.
#[test]
fn proportional_reward_scenario() {
    let mut ledger = StakingLedger::new();
    assert_eq!(ledger.create_pool(CREATOR, POOL, 1000, 100), Ok(()));
    assert_eq!(ledger.stake(STAKER_A, CREATOR, POOL, 1, 100, 0), Ok(()));
    assert_eq!(ledger.stake(STAKER_B, CREATOR, POOL, 1, 300, 0), Ok(()));

    let pool = ledger.get_pool(CREATOR, POOL).unwrap();
    assert_eq!(pool.current_tokens_staked, 400);
    assert_eq!(pool.current_rewards, 1000);

    assert_eq!(ledger.activate_cooldown(STAKER_A, CREATOR, POOL, 1, 50), Ok(()));
    assert_eq!(ledger.unstake(STAKER_A, CREATOR, POOL, 1, 150), Ok((100, 250)));

    let pool = ledger.get_pool(CREATOR, POOL).unwrap();
    assert_eq!(pool.current_rewards, 750);
    assert_eq!(pool.current_tokens_staked, 300);

    let deposit = ledger.get_deposit(STAKER_A, CREATOR, POOL, 1).unwrap();
    assert!(deposit.is_withdrawn);
    assert_eq!(deposit.tokens_claimed, 250);
    assert_eq!(ledger.get_staker_stats(STAKER_A).unwrap().total_staked, 0);
}

/// Creator enables emergency mode with 750 rewards left; B exits with
/// exactly the 300 principal and no reward, leaving 0 staked; the creator
/// then drains the full 750 and the balance is zero.
#[test]
fn emergency_wind_down_scenario() {
    let mut ledger = StakingLedger::new();
    assert_eq!(ledger.create_pool(CREATOR, POOL, 1000, 100), Ok(()));
    assert_eq!(ledger.stake(STAKER_A, CREATOR, POOL, 1, 100, 0), Ok(()));
    assert_eq!(ledger.stake(STAKER_B, CREATOR, POOL, 1, 300, 0), Ok(()));
    assert_eq!(ledger.activate_cooldown(STAKER_A, CREATOR, POOL, 1, 50), Ok(()));
    assert_eq!(ledger.unstake(STAKER_A, CREATOR, POOL, 1, 150), Ok((100, 250)));

    assert_eq!(ledger.enable_emergency_mode(CREATOR, CREATOR, POOL), Ok(()));
    assert_eq!(ledger.unstake_emergency(STAKER_B, CREATOR, POOL, 1), Ok(300));

    let pool = ledger.get_pool(CREATOR, POOL).unwrap();
    assert_eq!(pool.current_tokens_staked, 0);
    assert_eq!(pool.current_rewards, 750);
    let deposit = ledger.get_deposit(STAKER_B, CREATOR, POOL, 1).unwrap();
    assert!(deposit.is_withdrawn);
    assert_eq!(deposit.tokens_claimed, 0);

    assert_eq!(ledger.withdraw_rewards_emergency(CREATOR, CREATOR, POOL), Ok(750));
    assert_eq!(ledger.get_pool(CREATOR, POOL).unwrap().current_rewards, 0);
}

/// `activate_cooldown` twice on the same never-withdrawn deposit: the second
/// call fails and the unlock time keeps the value set by the first call.
#[test]
fn cooldown_cannot_be_rearmed() {
    let mut ledger = StakingLedger::new();
    assert_eq!(ledger.create_pool(CREATOR, POOL, 0, 100), Ok(()));
    assert_eq!(ledger.stake(STAKER_A, CREATOR, POOL, 1, 50, 0), Ok(()));

    assert_eq!(ledger.activate_cooldown(STAKER_A, CREATOR, POOL, 1, 20), Ok(()));
    let armed = ledger.get_deposit(STAKER_A, CREATOR, POOL, 1).unwrap();
    assert!(armed.is_cooldown_active);
    assert_eq!(armed.unlock_timestamp, 120);

    assert_eq!(
        ledger.activate_cooldown(STAKER_A, CREATOR, POOL, 1, 90),
        Err(StakingError::CooldownAlreadyActivated)
    );
    let still_armed = ledger.get_deposit(STAKER_A, CREATOR, POOL, 1).unwrap();
    assert_eq!(still_armed.unlock_timestamp, 120);
}

/// The pool's staked counter always equals the sum of its active deposits,
/// checked against a sum recomputed by hand after each operation.
#[test]
fn staked_counter_matches_deposit_sum() {
    let mut ledger = StakingLedger::new();
    assert_eq!(ledger.create_pool(CREATOR, POOL, 500, 10), Ok(()));
    assert_eq!(ledger.stake(STAKER_A, CREATOR, POOL, 1, 40, 0), Ok(()));
    assert_eq!(ledger.stake(STAKER_A, CREATOR, POOL, 2, 60, 0), Ok(()));
    assert_eq!(ledger.stake(STAKER_B, CREATOR, POOL, 1, 25, 0), Ok(()));

    let active_sum = |ledger: &StakingLedger| -> u64 {
        let mut sum = 0;
        for (staker, deposit_id) in [(STAKER_A, 1), (STAKER_A, 2), (STAKER_B, 1)] {
            let d = ledger.get_deposit(staker, CREATOR, POOL, deposit_id).unwrap();
            if !d.is_withdrawn {
                sum += d.tokens_deposited;
            }
        }
        sum
    };
    assert_eq!(ledger.get_pool(CREATOR, POOL).unwrap().current_tokens_staked, 125);
    assert_eq!(active_sum(&ledger), 125);

    assert_eq!(ledger.activate_cooldown(STAKER_A, CREATOR, POOL, 2, 0), Ok(()));
    let (principal, _reward) = ledger.unstake(STAKER_A, CREATOR, POOL, 2, 10).unwrap();
    assert_eq!(principal, 60);
    assert_eq!(ledger.get_pool(CREATOR, POOL).unwrap().current_tokens_staked, 65);
    assert_eq!(active_sum(&ledger), 65);

    assert_eq!(ledger.get_staker_stats(STAKER_A).unwrap().total_staked, 40);
    assert_eq!(ledger.get_staker_stats(STAKER_B).unwrap().total_staked, 25);
}

/// A staker's aggregate spans every pool they participate in.
#[test]
fn staker_aggregate_spans_pools() {
    let mut ledger = StakingLedger::new();
    assert_eq!(ledger.create_pool(CREATOR, 1, 0, 0), Ok(()));
    assert_eq!(ledger.create_pool(CREATOR, 2, 0, 0), Ok(()));
    assert_eq!(ledger.stake(STAKER_A, CREATOR, 1, 1, 100, 0), Ok(()));
    assert_eq!(ledger.stake(STAKER_A, CREATOR, 2, 1, 200, 0), Ok(()));
    assert_eq!(ledger.get_staker_stats(STAKER_A).unwrap().total_staked, 300);

    assert_eq!(ledger.activate_cooldown(STAKER_A, CREATOR, 1, 1, 0), Ok(()));
    assert_eq!(ledger.unstake(STAKER_A, CREATOR, 1, 1, 0), Ok((100, 0)));
    assert_eq!(ledger.get_staker_stats(STAKER_A).unwrap().total_staked, 200);
}

/// A negative cooldown is allowed and makes a deposit unlockable at
/// activation time.
#[test]
fn negative_cooldown_unlocks_immediately() {
    let mut ledger = StakingLedger::new();
    assert_eq!(ledger.create_pool(CREATOR, POOL, 100, -50), Ok(()));
    assert_eq!(ledger.stake(STAKER_A, CREATOR, POOL, 1, 10, 100), Ok(()));
    assert_eq!(ledger.activate_cooldown(STAKER_A, CREATOR, POOL, 1, 100), Ok(()));
    assert_eq!(ledger.get_deposit(STAKER_A, CREATOR, POOL, 1).unwrap().unlock_timestamp, 50);
    assert_eq!(ledger.unstake(STAKER_A, CREATOR, POOL, 1, 100), Ok((10, 100)));
}

/// The cooldown change applies only to cooldowns activated afterwards:
/// an already-armed deposit keeps its unlock time, a deposit armed later
/// uses the new duration.
#[test]
fn cooldown_change_affects_only_future_activations() {
    let mut ledger = StakingLedger::new();
    assert_eq!(ledger.create_pool(CREATOR, POOL, 0, 100), Ok(()));
    assert_eq!(ledger.stake(STAKER_A, CREATOR, POOL, 1, 10, 0), Ok(()));
    assert_eq!(ledger.stake(STAKER_B, CREATOR, POOL, 1, 10, 0), Ok(()));

    assert_eq!(ledger.activate_cooldown(STAKER_A, CREATOR, POOL, 1, 0), Ok(()));
    assert_eq!(ledger.change_pool_cooldown(CREATOR, CREATOR, POOL, 1000), Ok(()));

    assert_eq!(ledger.get_deposit(STAKER_A, CREATOR, POOL, 1).unwrap().unlock_timestamp, 100);
    assert_eq!(ledger.activate_cooldown(STAKER_B, CREATOR, POOL, 1, 0), Ok(()));
    assert_eq!(ledger.get_deposit(STAKER_B, CREATOR, POOL, 1).unwrap().unlock_timestamp, 1000);

    assert_eq!(ledger.unstake(STAKER_A, CREATOR, POOL, 1, 100), Ok((10, 0)));
    assert_eq!(
        ledger.unstake(STAKER_B, CREATOR, POOL, 1, 100),
        Err(StakingError::ClaimCooldownNotElapsed)
    );
}
