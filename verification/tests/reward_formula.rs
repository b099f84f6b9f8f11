//! Exact values of the proportional reward formula.

use staking::ledger::StakingLedger;
use staking::reward::economy_estimate_rewards;

#[test]
fn reward_is_floor_of_proportional_share() {
    // floor(100 * 1000 / 400) = 250
    assert_eq!(economy_estimate_rewards(400, 100, 1000), 250);
    // floor(1 * 10 / 3) = 3: the division truncates toward zero.
    assert_eq!(economy_estimate_rewards(3, 1, 10), 3);
    // floor(2 * 10 / 3) = 6
    assert_eq!(economy_estimate_rewards(3, 2, 10), 6);
    // The whole stake claims the whole reward balance exactly.
    assert_eq!(economy_estimate_rewards(5, 5, 999), 999);
    assert_eq!(economy_estimate_rewards(1, 1, u64::MAX), u64::MAX);
    // A zero reward balance pays nothing.
    assert_eq!(economy_estimate_rewards(400, 100, 0), 0);
}

/// The intermediate product is formed at double width: operands near
/// `u64::MAX` do not overflow the computation.
#[test]
fn reward_product_is_computed_wide() {
    assert_eq!(economy_estimate_rewards(u64::MAX, u64::MAX, u64::MAX), u64::MAX);
    assert_eq!(economy_estimate_rewards(u64::MAX, u64::MAX - 1, 1_000_000), 999_999);
}

/// Truncation dust stays in the pool: three equal stakers splitting 10
/// reward units floor their shares, and the running balance reflects it.
#[test]
fn reward_dust_stays_in_pool() {
    let creator: u64 = 1;
    let pool: u64 = 1;
    let mut ledger = StakingLedger::new();
    assert_eq!(ledger.create_pool(creator, pool, 10, 0), Ok(()));
    for staker in [10u64, 11, 12] {
        assert_eq!(ledger.stake(staker, creator, pool, 1, 1, 0), Ok(()));
    }
    assert_eq!(ledger.activate_cooldown(10, creator, pool, 1, 0), Ok(()));
    // floor(1 * 10 / 3) = 3, leaving 7 behind.
    assert_eq!(ledger.unstake(10, creator, pool, 1, 0), Ok((1, 3)));
    assert_eq!(ledger.get_pool(creator, pool).unwrap().current_rewards, 7);
    // floor(1 * 7 / 2) = 3, leaving 4 for a stake of 1.
    assert_eq!(ledger.activate_cooldown(11, creator, pool, 1, 0), Ok(()));
    assert_eq!(ledger.unstake(11, creator, pool, 1, 0), Ok((1, 3)));
    assert_eq!(ledger.get_pool(creator, pool).unwrap().current_rewards, 4);
    // The last staker's share is the whole remaining balance: 4.
    assert_eq!(ledger.activate_cooldown(12, creator, pool, 1, 0), Ok(()));
    assert_eq!(ledger.unstake(12, creator, pool, 1, 0), Ok((1, 4)));
    assert_eq!(ledger.get_pool(creator, pool).unwrap().current_rewards, 0);
}
