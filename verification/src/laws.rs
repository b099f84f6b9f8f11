//! Proved laws of the staking ledger.
//!
//! The central law is preservation of well-formedness: every operation's
//! successor state satisfies [`LedgerView::wf`] again, which carries the
//! accounting invariant — each pool's `current_tokens_staked` equals the sum
//! of its active deposits, and each staker's aggregate equals the sum of
//! theirs.  On top of that stand the behavioural laws: terminal withdrawal
//! flags, cooldown gating, and the one-way, exclusive emergency mode.

use vstd::prelude::*;

use crate::errors::StakingError;
use crate::model::{
    deposit_key, lemma_absent_pool_sum_zero, lemma_absent_staker_sum_zero,
    lemma_active_deposit_within_totals, lemma_deposit_push_sums, lemma_deposit_update_sums,
    lemma_deposit_update_keeps_indexes, lemma_pool_update_keeps_indexes,
    lemma_stats_update_keeps_indexes, pool_key, pool_stake_measure, staker_stake_measure,
    stats_key, LedgerView,
};
use crate::records::{StakerDeposit, StakerStats, StakingPool};
use crate::seq_util::{find_index, lemma_find_index, lemma_find_index_push};
use crate::transitions::{
    activate_cooldown_next, activate_cooldown_result, change_pool_cooldown_next,
    change_pool_cooldown_result, create_pool_next, create_pool_result, enable_emergency_mode_next,
    enable_emergency_mode_result, fund_pool_next, fund_pool_result, stake_next, stake_result,
    step, unstake_emergency_next, unstake_emergency_result, unstake_next, unstake_result,
    withdraw_rewards_emergency_next, withdraw_rewards_emergency_result, Op,
};

verus! {

/// Replacing one pool record — same key, same staked counter — keeps the
/// store well-formed: only fields outside the accounting invariant changed.
proof fn lemma_wf_pool_field_update(m: LedgerView, pi: int, p2: StakingPool)
    requires
        m.wf(),
        0 <= pi < m.pools.len(),
        p2.same_key(m.pools[pi]),
        p2.current_tokens_staked == m.pools[pi].current_tokens_staked,
    ensures
        (LedgerView { pools: m.pools.update(pi, p2), ..m }).wf(),
{
    let m2 = LedgerView { pools: m.pools.update(pi, p2), ..m };
    lemma_pool_update_keeps_indexes(m.pools, pi, p2);
    assert forall|i: int, j: int| 0 <= i < j < m2.pools.len() implies !(
    #[trigger] m2.pools[i].same_key(m2.pools[j])) by {
        assert(!m.pools[i].same_key(m.pools[j]));
    }
    assert forall|k: int|
        0 <= k < m2.deposits.len() implies m2.pool_index(
        (#[trigger] m2.deposits[k]).pool_creator,
        m2.deposits[k].pool_id,
    ) >= 0 by {
        assert(m.pool_index(m.deposits[k].pool_creator, m.deposits[k].pool_id) >= 0);
    }
    assert forall|i: int|
        0 <= i < m2.pools.len() implies (#[trigger] m2.pools[i]).current_tokens_staked
        == m2.pool_staked_total(m2.pools[i].creator, m2.pools[i].pool_id) by {
        assert(m.pools[i].current_tokens_staked == m.pool_staked_total(
            m.pools[i].creator,
            m.pools[i].pool_id,
        ));
    }
}

/// `create_pool` preserves well-formedness: the fresh pool starts with a
/// zero staked counter, and no deposit can reference a key that was absent.
pub proof fn lemma_create_pool_preserves_wf(
    m: LedgerView,
    creator: u64,
    pool_id: u64,
    initial_funding_amount: u64,
    claim_cooldown: i64,
)
    requires
        m.wf(),
    ensures
        create_pool_next(m, creator, pool_id, initial_funding_amount, claim_cooldown).wf(),
{
    if create_pool_result(m, creator, pool_id, initial_funding_amount, claim_cooldown) is Ok {
        let m2 = create_pool_next(m, creator, pool_id, initial_funding_amount, claim_cooldown);
        let p2 = m2.pools.last();
        lemma_find_index(m.pools, pool_key(creator, pool_id));
        assert forall|i: int, j: int| 0 <= i < j < m2.pools.len() implies !(
        #[trigger] m2.pools[i].same_key(m2.pools[j])) by {
            if j < m.pools.len() {
                assert(!m.pools[i].same_key(m.pools[j]));
            } else {
                assert(!pool_key(creator, pool_id)(m.pools[i]));
            }
        }
        assert forall|k: int|
            0 <= k < m2.deposits.len() implies m2.pool_index(
            (#[trigger] m2.deposits[k]).pool_creator,
            m2.deposits[k].pool_id,
        ) >= 0 by {
            assert(m.pool_index(m.deposits[k].pool_creator, m.deposits[k].pool_id) >= 0);
            lemma_find_index_push(
                m.pools,
                p2,
                pool_key(m.deposits[k].pool_creator, m.deposits[k].pool_id),
            );
        }
        assert forall|i: int|
            0 <= i < m2.pools.len() implies (#[trigger] m2.pools[i]).current_tokens_staked
            == m2.pool_staked_total(m2.pools[i].creator, m2.pools[i].pool_id) by {
            if i < m.pools.len() {
                assert(m.pools[i].current_tokens_staked == m.pool_staked_total(
                    m.pools[i].creator,
                    m.pools[i].pool_id,
                ));
            } else {
                lemma_absent_pool_sum_zero(m, creator, pool_id);
            }
        }
    }
}

/// `fund_pool` preserves well-formedness: only the reward balance changes.
pub proof fn lemma_fund_pool_preserves_wf(
    m: LedgerView,
    signer: u64,
    creator: u64,
    pool_id: u64,
    amount: u64,
)
    requires
        m.wf(),
    ensures
        fund_pool_next(m, signer, creator, pool_id, amount).wf(),
{
    if fund_pool_result(m, signer, creator, pool_id, amount) is Ok {
        let pi = m.pool_index(creator, pool_id);
        let p = m.pools[pi];
        lemma_find_index(m.pools, pool_key(creator, pool_id));
        lemma_wf_pool_field_update(
            m,
            pi,
            StakingPool { current_rewards: (p.current_rewards + amount) as u64, ..p },
        );
    }
}

/// `enable_emergency_mode` preserves well-formedness: only the flag changes.
pub proof fn lemma_enable_emergency_mode_preserves_wf(
    m: LedgerView,
    signer: u64,
    creator: u64,
    pool_id: u64,
)
    requires
        m.wf(),
    ensures
        enable_emergency_mode_next(m, signer, creator, pool_id).wf(),
{
    if enable_emergency_mode_result(m, signer, creator, pool_id) is Ok {
        let pi = m.pool_index(creator, pool_id);
        let p = m.pools[pi];
        lemma_find_index(m.pools, pool_key(creator, pool_id));
        lemma_wf_pool_field_update(m, pi, StakingPool { emergency_mode_enabled: true, ..p });
    }
}

/// `change_pool_cooldown` preserves well-formedness: only the cooldown
/// changes.
pub proof fn lemma_change_pool_cooldown_preserves_wf(
    m: LedgerView,
    signer: u64,
    creator: u64,
    pool_id: u64,
    new_cooldown: i64,
)
    requires
        m.wf(),
    ensures
        change_pool_cooldown_next(m, signer, creator, pool_id, new_cooldown).wf(),
{
    if change_pool_cooldown_result(m, signer, creator, pool_id, new_cooldown) is Ok {
        let pi = m.pool_index(creator, pool_id);
        let p = m.pools[pi];
        lemma_find_index(m.pools, pool_key(creator, pool_id));
        lemma_wf_pool_field_update(m, pi, StakingPool { claim_cooldown: new_cooldown, ..p });
    }
}

/// `stake` preserves well-formedness: the new deposit's principal is added
/// both to its pool's counter and to its staker's aggregate, and to the sums
/// they must equal.
pub proof fn lemma_stake_preserves_wf(
    m: LedgerView,
    staker: u64,
    creator: u64,
    pool_id: u64,
    deposit_id: u64,
    amount: u64,
    now: i64,
)
    requires
        m.wf(),
    ensures
        stake_next(m, staker, creator, pool_id, deposit_id, amount, now).wf(),
{
    if stake_result(m, staker, creator, pool_id, deposit_id, amount, now) is Ok {
        let m2 = stake_next(m, staker, creator, pool_id, deposit_id, amount, now);
        let pi = m.pool_index(creator, pool_id);
        let p = m.pools[pi];
        let p2 = StakingPool {
            current_tokens_staked: (p.current_tokens_staked + amount) as u64,
            ..p
        };
        lemma_find_index(m.pools, pool_key(creator, pool_id));
        lemma_find_index(m.deposits, deposit_key(staker, creator, pool_id, deposit_id));
        lemma_find_index(m.stats, stats_key(staker));
        let d2 = StakerDeposit {
            deposit_id,
            staker,
            pool_creator: creator,
            pool_id,
            tokens_deposited: amount,
            tokens_claimed: 0,
            unlock_timestamp: (now + p.claim_cooldown) as i64,
            is_withdrawn: false,
            is_cooldown_active: false,
        };
        let fresh_staker = m.stats_index(staker) == -1;
        let stats0 = if !fresh_staker {
            m.stats
        } else {
            m.stats.push(StakerStats { staker, total_staked: 0 })
        };
        if fresh_staker {
            lemma_find_index_push(
                m.stats,
                StakerStats { staker, total_staked: 0 },
                stats_key(staker),
            );
        }
        let si = find_index(stats0, stats_key(staker));
        assert(0 <= si < stats0.len());
        let t = stats0[si];
        let t2 = StakerStats { total_staked: (t.total_staked + amount) as u64, ..t };
        assert(m2.pools == m.pools.update(pi, p2));
        assert(m2.deposits == m.deposits.push(d2));
        assert(m2.stats == stats0.update(si, t2));

        lemma_pool_update_keeps_indexes(m.pools, pi, p2);
        lemma_deposit_push_sums(m.deposits, d2);
        lemma_stats_update_keeps_indexes(stats0, si, t2);

        // No two pools share a key: the update kept every key.
        assert forall|i: int, j: int| 0 <= i < j < m2.pools.len() implies !(
        #[trigger] m2.pools[i].same_key(m2.pools[j])) by {
            assert(!m.pools[i].same_key(m.pools[j]));
        }
        // No two deposits share a key: the new one's key was checked fresh.
        assert forall|i: int, j: int| 0 <= i < j < m2.deposits.len() implies !(
        #[trigger] m2.deposits[i].same_key(m2.deposits[j])) by {
            if j < m.deposits.len() {
                assert(!m.deposits[i].same_key(m.deposits[j]));
            } else {
                assert(!deposit_key(staker, creator, pool_id, deposit_id)(m.deposits[i]));
            }
        }
        // No two aggregate records share a staker: a record is pushed only
        // for a staker who had none.
        assert forall|i: int, j: int| 0 <= i < j < stats0.len() implies (
        #[trigger] stats0[i]).staker != (#[trigger] stats0[j]).staker by {
            if j < m.stats.len() {
                assert(m.stats[i].staker != m.stats[j].staker);
            } else {
                assert(!stats_key(staker)(m.stats[i]));
            }
        }
        assert forall|i: int, j: int| 0 <= i < j < m2.stats.len() implies (
        #[trigger] m2.stats[i]).staker != (#[trigger] m2.stats[j]).staker by {
            assert(stats0[i].staker != stats0[j].staker);
        }
        // Every deposit still references an existing pool.
        assert forall|k: int|
            0 <= k < m2.deposits.len() implies m2.pool_index(
            (#[trigger] m2.deposits[k]).pool_creator,
            m2.deposits[k].pool_id,
        ) >= 0 by {
            if k < m.deposits.len() {
                assert(m.pool_index(m.deposits[k].pool_creator, m.deposits[k].pool_id) >= 0);
            } else {
                assert(m2.pool_index(creator, pool_id) == pi);
            }
        }
        // Every deposit's owner still has an aggregate record.
        assert forall|k: int|
            0 <= k < m2.deposits.len() implies m2.stats_index(
            (#[trigger] m2.deposits[k]).staker,
        ) >= 0 by {
            if k < m.deposits.len() {
                assert(m.stats_index(m.deposits[k].staker) >= 0);
                if fresh_staker {
                    lemma_find_index_push(
                        m.stats,
                        StakerStats { staker, total_staked: 0 },
                        stats_key(m.deposits[k].staker),
                    );
                }
                assert(find_index(stats0, stats_key(m.deposits[k].staker)) >= 0);
            } else {
                assert(m2.stats_index(staker) == si);
            }
        }
        // Every pool's staked counter still equals the sum of its active
        // deposits: only the staked-into pool's counter and sum changed, and
        // both by `amount`.
        assert forall|i: int|
            0 <= i < m2.pools.len() implies (#[trigger] m2.pools[i]).current_tokens_staked
            == m2.pool_staked_total(m2.pools[i].creator, m2.pools[i].pool_id) by {
            let c = m.pools[i].creator;
            let id = m.pools[i].pool_id;
            assert(m.pools[i].current_tokens_staked == m.pool_staked_total(c, id));
            assert(m2.pool_staked_total(c, id) == m.pool_staked_total(c, id)
                + pool_stake_measure(c, id)(d2));
            if i == pi {
                assert(pool_stake_measure(c, id)(d2) == amount);
            } else {
                if i < pi {
                    assert(!m.pools[i].same_key(m.pools[pi]));
                } else {
                    assert(!m.pools[pi].same_key(m.pools[i]));
                }
                assert(pool_stake_measure(c, id)(d2) == 0);
            }
        }
        // Every staker's aggregate still equals the sum of their active
        // deposits: only the staking staker's record and sum changed, and
        // both by `amount`.
        assert forall|i: int|
            0 <= i < m2.stats.len() implies (#[trigger] m2.stats[i]).total_staked
            == m2.staker_staked_total(m2.stats[i].staker) by {
            let s = stats0[i].staker;
            assert(m2.staker_staked_total(s) == m.staker_staked_total(s)
                + staker_stake_measure(s)(d2));
            if i == si {
                assert(s == staker);
                assert(staker_stake_measure(s)(d2) == amount);
                if fresh_staker {
                    lemma_absent_staker_sum_zero(m, staker);
                    assert(t.total_staked == 0);
                } else {
                    assert(t.total_staked == m.staker_staked_total(staker));
                }
            } else {
                assert(m2.stats[i] == stats0[i]);
                if i < si {
                    assert(stats0[i].staker != stats0[si].staker);
                } else {
                    assert(stats0[si].staker != stats0[i].staker);
                }
                assert(s != staker);
                assert(staker_stake_measure(s)(d2) == 0);
                if i < m.stats.len() {
                    assert(m.stats[i].total_staked == m.staker_staked_total(s));
                }
            }
        }
    }
}

/// Terminally withdrawing one active deposit — marking it withdrawn and
/// subtracting its principal from its pool's staked counter and its owner's
/// aggregate — keeps the store well-formed, whatever happens to the pool's
/// reward balance and the deposit's claimed amount, since neither is tied to
/// the accounting invariant.
proof fn lemma_wf_deposit_withdrawal(m: LedgerView, di: int, new_rewards: u64, new_claimed: u64)
    requires
        m.wf(),
        0 <= di < m.deposits.len(),
        m.deposits[di].is_active(),
    ensures
        ({
            let d = m.deposits[di];
            let pi = m.pool_index(d.pool_creator, d.pool_id);
            let si = m.stats_index(d.staker);
            let p = m.pools[pi];
            let t = m.stats[si];
            LedgerView {
                pools: m.pools.update(
                    pi,
                    StakingPool {
                        current_tokens_staked: (p.current_tokens_staked
                            - d.tokens_deposited) as u64,
                        current_rewards: new_rewards,
                        ..p
                    },
                ),
                deposits: m.deposits.update(
                    di,
                    StakerDeposit { is_withdrawn: true, tokens_claimed: new_claimed, ..d },
                ),
                stats: m.stats.update(
                    si,
                    StakerStats { total_staked: (t.total_staked - d.tokens_deposited) as u64, ..t },
                ),
            }.wf()
        }),
{
    let d = m.deposits[di];
    let pi = m.pool_index(d.pool_creator, d.pool_id);
    let si = m.stats_index(d.staker);
    lemma_find_index(m.pools, pool_key(d.pool_creator, d.pool_id));
    lemma_find_index(m.stats, stats_key(d.staker));
    lemma_active_deposit_within_totals(m, di);
    let p = m.pools[pi];
    let t = m.stats[si];
    let p2 = StakingPool {
        current_tokens_staked: (p.current_tokens_staked - d.tokens_deposited) as u64,
        current_rewards: new_rewards,
        ..p
    };
    let d2 = StakerDeposit { is_withdrawn: true, tokens_claimed: new_claimed, ..d };
    let t2 = StakerStats { total_staked: (t.total_staked - d.tokens_deposited) as u64, ..t };
    let m2 = LedgerView {
        pools: m.pools.update(pi, p2),
        deposits: m.deposits.update(di, d2),
        stats: m.stats.update(si, t2),
    };

    lemma_pool_update_keeps_indexes(m.pools, pi, p2);
    lemma_deposit_update_keeps_indexes(m.deposits, di, d2);
    lemma_stats_update_keeps_indexes(m.stats, si, t2);
    lemma_deposit_update_sums(m.deposits, di, d2);

    assert forall|i: int, j: int| 0 <= i < j < m2.pools.len() implies !(
    #[trigger] m2.pools[i].same_key(m2.pools[j])) by {
        assert(!m.pools[i].same_key(m.pools[j]));
    }
    assert forall|i: int, j: int| 0 <= i < j < m2.deposits.len() implies !(
    #[trigger] m2.deposits[i].same_key(m2.deposits[j])) by {
        assert(!m.deposits[i].same_key(m.deposits[j]));
    }
    assert forall|i: int, j: int| 0 <= i < j < m2.stats.len() implies (
    #[trigger] m2.stats[i]).staker != (#[trigger] m2.stats[j]).staker by {
        assert(m.stats[i].staker != m.stats[j].staker);
    }
    assert forall|k: int|
        0 <= k < m2.deposits.len() implies m2.pool_index(
        (#[trigger] m2.deposits[k]).pool_creator,
        m2.deposits[k].pool_id,
    ) >= 0 by {
        assert(m.pool_index(m.deposits[k].pool_creator, m.deposits[k].pool_id) >= 0);
        assert(m2.deposits[k].pool_creator == m.deposits[k].pool_creator);
        assert(m2.deposits[k].pool_id == m.deposits[k].pool_id);
    }
    assert forall|k: int|
        0 <= k < m2.deposits.len() implies m2.stats_index(
        (#[trigger] m2.deposits[k]).staker,
    ) >= 0 by {
        assert(m.stats_index(m.deposits[k].staker) >= 0);
        assert(m2.deposits[k].staker == m.deposits[k].staker);
    }
    assert forall|k: int|
        0 <= k < m2.deposits.len() implies (#[trigger] m2.deposits[k]).tokens_deposited > 0 by {
        assert(m.deposits[k].tokens_deposited > 0);
    }
    // Each pool's counter: only the withdrawn deposit's pool loses exactly
    // the principal, both in the counter and in the sum.
    assert forall|i: int|
        0 <= i < m2.pools.len() implies (#[trigger] m2.pools[i]).current_tokens_staked
        == m2.pool_staked_total(m2.pools[i].creator, m2.pools[i].pool_id) by {
        let c = m.pools[i].creator;
        let id = m.pools[i].pool_id;
        assert(m.pools[i].current_tokens_staked == m.pool_staked_total(c, id));
        assert(m2.pool_staked_total(c, id) == m.pool_staked_total(c, id) - pool_stake_measure(
            c,
            id,
        )(d) + pool_stake_measure(c, id)(d2));
        assert(pool_stake_measure(c, id)(d2) == 0);
        if i == pi {
            assert(pool_stake_measure(c, id)(d) == d.tokens_deposited);
        } else {
            if i < pi {
                assert(!m.pools[i].same_key(m.pools[pi]));
            } else {
                assert(!m.pools[pi].same_key(m.pools[i]));
            }
            assert(pool_stake_measure(c, id)(d) == 0);
        }
    }
    // Each staker's aggregate: only the owner loses exactly the principal.
    assert forall|i: int|
        0 <= i < m2.stats.len() implies (#[trigger] m2.stats[i]).total_staked
        == m2.staker_staked_total(m2.stats[i].staker) by {
        let s = m.stats[i].staker;
        assert(m.stats[i].total_staked == m.staker_staked_total(s));
        assert(m2.staker_staked_total(s) == m.staker_staked_total(s) - staker_stake_measure(s)(d)
            + staker_stake_measure(s)(d2));
        assert(staker_stake_measure(s)(d2) == 0);
        if i == si {
            assert(s == d.staker);
            assert(staker_stake_measure(s)(d) == d.tokens_deposited);
        } else {
            if i < si {
                assert(m.stats[i].staker != m.stats[si].staker);
            } else {
                assert(m.stats[si].staker != m.stats[i].staker);
            }
            assert(staker_stake_measure(s)(d) == 0);
        }
    }
}

/// `unstake` preserves well-formedness: the deposit turns inactive and its
/// principal leaves both sums and both counters together; the reward paid
/// out is not part of the accounting invariant.
pub proof fn lemma_unstake_preserves_wf(
    m: LedgerView,
    staker: u64,
    creator: u64,
    pool_id: u64,
    deposit_id: u64,
    now: i64,
)
    requires
        m.wf(),
    ensures
        unstake_next(m, staker, creator, pool_id, deposit_id, now).wf(),
{
    if unstake_result(m, staker, creator, pool_id, deposit_id, now) is Ok {
        let di = m.deposit_index(staker, creator, pool_id, deposit_id);
        lemma_find_index(m.deposits, deposit_key(staker, creator, pool_id, deposit_id));
        let d = m.deposits[di];
        let pi = m.pool_index(creator, pool_id);
        let p = m.pools[pi];
        let reward = crate::reward::proportional_reward(
            p.current_tokens_staked,
            d.tokens_deposited,
            p.current_rewards,
        ) as u64;
        lemma_wf_deposit_withdrawal(m, di, (p.current_rewards - reward) as u64, reward);
    }
}

/// `unstake_emergency` preserves well-formedness: as for `unstake`, with the
/// reward balance and the claimed amount left untouched.
pub proof fn lemma_unstake_emergency_preserves_wf(
    m: LedgerView,
    staker: u64,
    creator: u64,
    pool_id: u64,
    deposit_id: u64,
)
    requires
        m.wf(),
    ensures
        unstake_emergency_next(m, staker, creator, pool_id, deposit_id).wf(),
{
    if unstake_emergency_result(m, staker, creator, pool_id, deposit_id) is Ok {
        let di = m.deposit_index(staker, creator, pool_id, deposit_id);
        lemma_find_index(m.deposits, deposit_key(staker, creator, pool_id, deposit_id));
        let d = m.deposits[di];
        let pi = m.pool_index(creator, pool_id);
        let p = m.pools[pi];
        lemma_wf_deposit_withdrawal(m, di, p.current_rewards, d.tokens_claimed);
        assert(unstake_emergency_next(m, staker, creator, pool_id, deposit_id) == LedgerView {
            pools: m.pools.update(
                pi,
                StakingPool {
                    current_tokens_staked: (p.current_tokens_staked - d.tokens_deposited) as u64,
                    current_rewards: p.current_rewards,
                    ..p
                },
            ),
            deposits: m.deposits.update(
                di,
                StakerDeposit { is_withdrawn: true, tokens_claimed: d.tokens_claimed, ..d },
            ),
            stats: m.stats.update(
                m.stats_index(staker),
                StakerStats {
                    total_staked: (m.stats[m.stats_index(staker)].total_staked
                        - d.tokens_deposited) as u64,
                    ..m.stats[m.stats_index(staker)]
                },
            ),
        });
    }
}

/// `activate_cooldown` preserves well-formedness: the deposit's key, amount,
/// and activity are untouched; only its arming flag and unlock time change.
pub proof fn lemma_activate_cooldown_preserves_wf(
    m: LedgerView,
    staker: u64,
    creator: u64,
    pool_id: u64,
    deposit_id: u64,
    now: i64,
)
    requires
        m.wf(),
    ensures
        activate_cooldown_next(m, staker, creator, pool_id, deposit_id, now).wf(),
{
    if activate_cooldown_result(m, staker, creator, pool_id, deposit_id, now) is Ok {
        let m2 = activate_cooldown_next(m, staker, creator, pool_id, deposit_id, now);
        let di = m.deposit_index(staker, creator, pool_id, deposit_id);
        let pi = m.pool_index(creator, pool_id);
        lemma_find_index(m.deposits, deposit_key(staker, creator, pool_id, deposit_id));
        let d = m.deposits[di];
        let d2 = StakerDeposit {
            is_cooldown_active: true,
            unlock_timestamp: (now + m.pools[pi].claim_cooldown) as i64,
            ..d
        };
        lemma_deposit_update_keeps_indexes(m.deposits, di, d2);
        lemma_deposit_update_sums(m.deposits, di, d2);
        assert forall|i: int, j: int| 0 <= i < j < m2.deposits.len() implies !(
        #[trigger] m2.deposits[i].same_key(m2.deposits[j])) by {
            assert(!m.deposits[i].same_key(m.deposits[j]));
        }
        assert forall|k: int|
            0 <= k < m2.deposits.len() implies m2.pool_index(
            (#[trigger] m2.deposits[k]).pool_creator,
            m2.deposits[k].pool_id,
        ) >= 0 && m2.stats_index(m2.deposits[k].staker) >= 0 && m2.deposits[k].tokens_deposited
            > 0 by {
            assert(m.pool_index(m.deposits[k].pool_creator, m.deposits[k].pool_id) >= 0);
            assert(m.stats_index(m.deposits[k].staker) >= 0);
            assert(m.deposits[k].tokens_deposited > 0);
            assert(m2.deposits[k].pool_creator == m.deposits[k].pool_creator);
            assert(m2.deposits[k].pool_id == m.deposits[k].pool_id);
            assert(m2.deposits[k].staker == m.deposits[k].staker);
        }
        // The changed fields carry no weight in either sum.
        assert forall|i: int|
            0 <= i < m2.pools.len() implies (#[trigger] m2.pools[i]).current_tokens_staked
            == m2.pool_staked_total(m2.pools[i].creator, m2.pools[i].pool_id) by {
            let c = m.pools[i].creator;
            let id = m.pools[i].pool_id;
            assert(m.pools[i].current_tokens_staked == m.pool_staked_total(c, id));
            assert(m2.pool_staked_total(c, id) == m.pool_staked_total(c, id)
                - pool_stake_measure(c, id)(d) + pool_stake_measure(c, id)(d2));
            assert(pool_stake_measure(c, id)(d2) == pool_stake_measure(c, id)(d));
        }
        assert forall|i: int|
            0 <= i < m2.stats.len() implies (#[trigger] m2.stats[i]).total_staked
            == m2.staker_staked_total(m2.stats[i].staker) by {
            let s = m.stats[i].staker;
            assert(m.stats[i].total_staked == m.staker_staked_total(s));
            assert(m2.staker_staked_total(s) == m.staker_staked_total(s) - staker_stake_measure(
                s,
            )(d) + staker_stake_measure(s)(d2));
            assert(staker_stake_measure(s)(d2) == staker_stake_measure(s)(d));
        }
    }
}

/// `withdraw_rewards_emergency` preserves well-formedness: only the reward
/// balance changes, to zero.
pub proof fn lemma_withdraw_rewards_emergency_preserves_wf(
    m: LedgerView,
    signer: u64,
    creator: u64,
    pool_id: u64,
)
    requires
        m.wf(),
    ensures
        withdraw_rewards_emergency_next(m, signer, creator, pool_id).wf(),
{
    if withdraw_rewards_emergency_result(m, signer, creator, pool_id) is Ok {
        let pi = m.pool_index(creator, pool_id);
        let p = m.pools[pi];
        lemma_find_index(m.pools, pool_key(creator, pool_id));
        lemma_wf_pool_field_update(m, pi, StakingPool { current_rewards: 0, ..p });
    }
}

/// Every operation preserves well-formedness.  In particular, after every
/// operation each pool's `current_tokens_staked` equals the sum of the
/// principals of that pool's non-withdrawn deposits.
pub proof fn lemma_step_preserves_wf(m: LedgerView, op: Op, now: i64)
    requires
        m.wf(),
    ensures
        step(m, op, now).wf(),
{
    match op {
        Op::CreatePool { creator, pool_id, initial_funding_amount, claim_cooldown } => {
            lemma_create_pool_preserves_wf(
                m,
                creator,
                pool_id,
                initial_funding_amount,
                claim_cooldown,
            );
        },
        Op::FundPool { signer, creator, pool_id, amount } => {
            lemma_fund_pool_preserves_wf(m, signer, creator, pool_id, amount);
        },
        Op::EnableEmergencyMode { signer, creator, pool_id } => {
            lemma_enable_emergency_mode_preserves_wf(m, signer, creator, pool_id);
        },
        Op::ChangePoolCooldown { signer, creator, pool_id, new_cooldown } => {
            lemma_change_pool_cooldown_preserves_wf(m, signer, creator, pool_id, new_cooldown);
        },
        Op::Stake { staker, creator, pool_id, deposit_id, amount } => {
            lemma_stake_preserves_wf(m, staker, creator, pool_id, deposit_id, amount, now);
        },
        Op::ActivateCooldown { staker, creator, pool_id, deposit_id } => {
            lemma_activate_cooldown_preserves_wf(m, staker, creator, pool_id, deposit_id, now);
        },
        Op::Unstake { staker, creator, pool_id, deposit_id } => {
            lemma_unstake_preserves_wf(m, staker, creator, pool_id, deposit_id, now);
        },
        Op::UnstakeEmergency { staker, creator, pool_id, deposit_id } => {
            lemma_unstake_emergency_preserves_wf(m, staker, creator, pool_id, deposit_id);
        },
        Op::WithdrawRewardsEmergency { signer, creator, pool_id } => {
            lemma_withdraw_rewards_emergency_preserves_wf(m, signer, creator, pool_id);
        },
    }
}

/// Each pool's staked counter equals the sum of its active deposits in every
/// well-formed state — together with `lemma_step_preserves_wf`, at all times.
pub proof fn lemma_pool_accounting(m: LedgerView, i: int)
    requires
        m.wf(),
        0 <= i < m.pools.len(),
    ensures
        m.pools[i].current_tokens_staked == m.pool_staked_total(
            m.pools[i].creator,
            m.pools[i].pool_id,
        ),
{
}

/// A pool's reward balance is never negative: it is carried as an unsigned
/// counter, and every operation that lowers it is proved not to underflow.
pub proof fn lemma_rewards_nonnegative(m: LedgerView, i: int)
    requires
        0 <= i < m.pools.len(),
    ensures
        m.pools[i].current_rewards >= 0,
{
}

/// No operation removes a pool, changes a pool's identity, or clears its
/// emergency flag: once enabled, emergency mode holds forever.
pub proof fn lemma_emergency_mode_one_way(m: LedgerView, op: Op, now: i64, i: int)
    requires
        m.wf(),
        0 <= i < m.pools.len(),
    ensures
        m.pools.len() <= step(m, op, now).pools.len(),
        step(m, op, now).pools[i].creator == m.pools[i].creator,
        step(m, op, now).pools[i].pool_id == m.pools[i].pool_id,
        m.pools[i].emergency_mode_enabled ==> step(m, op, now).pools[i].emergency_mode_enabled,
{
    match op {
        Op::CreatePool { .. } => {},
        Op::FundPool { signer, creator, pool_id, amount } => {
            if fund_pool_result(m, signer, creator, pool_id, amount) is Ok {
                lemma_find_index(m.pools, pool_key(creator, pool_id));
            }
        },
        Op::EnableEmergencyMode { signer, creator, pool_id } => {
            if enable_emergency_mode_result(m, signer, creator, pool_id) is Ok {
                lemma_find_index(m.pools, pool_key(creator, pool_id));
            }
        },
        Op::ChangePoolCooldown { signer, creator, pool_id, new_cooldown } => {
            if change_pool_cooldown_result(m, signer, creator, pool_id, new_cooldown) is Ok {
                lemma_find_index(m.pools, pool_key(creator, pool_id));
            }
        },
        Op::Stake { staker, creator, pool_id, deposit_id, amount } => {
            if stake_result(m, staker, creator, pool_id, deposit_id, amount, now) is Ok {
                lemma_find_index(m.pools, pool_key(creator, pool_id));
            }
        },
        Op::ActivateCooldown { .. } => {},
        Op::Unstake { staker, creator, pool_id, deposit_id } => {
            if unstake_result(m, staker, creator, pool_id, deposit_id, now) is Ok {
                lemma_find_index(m.pools, pool_key(creator, pool_id));
            }
        },
        Op::UnstakeEmergency { staker, creator, pool_id, deposit_id } => {
            if unstake_emergency_result(m, staker, creator, pool_id, deposit_id) is Ok {
                lemma_find_index(m.pools, pool_key(creator, pool_id));
            }
        },
        Op::WithdrawRewardsEmergency { signer, creator, pool_id } => {
            if withdraw_rewards_emergency_result(m, signer, creator, pool_id) is Ok {
                lemma_find_index(m.pools, pool_key(creator, pool_id));
            }
        },
    }
}

/// The withdrawal flag is terminal for `unstake`: a second `unstake` of the
/// same deposit fails and leaves the state exactly as the first call left
/// it.
pub proof fn lemma_unstake_twice_fails(
    m: LedgerView,
    staker: u64,
    creator: u64,
    pool_id: u64,
    deposit_id: u64,
    now1: i64,
    now2: i64,
)
    requires
        m.wf(),
        unstake_result(m, staker, creator, pool_id, deposit_id, now1) is Ok,
    ensures
        ({
            let m1 = unstake_next(m, staker, creator, pool_id, deposit_id, now1);
            &&& unstake_result(m1, staker, creator, pool_id, deposit_id, now2) == Err::<
                (u64, u64),
                StakingError,
            >(StakingError::DepositAlreadyWithdrawn)
            &&& unstake_next(m1, staker, creator, pool_id, deposit_id, now2) == m1
        }),
{
    let m1 = unstake_next(m, staker, creator, pool_id, deposit_id, now1);
    let di = m.deposit_index(staker, creator, pool_id, deposit_id);
    let pi = m.pool_index(creator, pool_id);
    lemma_find_index(m.deposits, deposit_key(staker, creator, pool_id, deposit_id));
    lemma_find_index(m.pools, pool_key(creator, pool_id));
    let d = m.deposits[di];
    let d2 = StakerDeposit {
        is_withdrawn: true,
        tokens_claimed: (crate::reward::proportional_reward(
            m.pools[pi].current_tokens_staked,
            d.tokens_deposited,
            m.pools[pi].current_rewards,
        ) as u64),
        ..d
    };
    lemma_deposit_update_keeps_indexes(m.deposits, di, d2);
    lemma_pool_update_keeps_indexes(
        m.pools,
        pi,
        StakingPool {
            current_tokens_staked: (m.pools[pi].current_tokens_staked
                - d.tokens_deposited) as u64,
            current_rewards: (m.pools[pi].current_rewards - d2.tokens_claimed) as u64,
            ..m.pools[pi]
        },
    );
    assert(m1.deposit_index(staker, creator, pool_id, deposit_id) == di);
    assert(m1.pool_index(creator, pool_id) == pi);
    assert(m1.deposits[di].is_withdrawn);
}

/// The withdrawal flag is terminal for `unstake_emergency` too: a second
/// call fails and changes nothing.
pub proof fn lemma_unstake_emergency_twice_fails(
    m: LedgerView,
    staker: u64,
    creator: u64,
    pool_id: u64,
    deposit_id: u64,
)
    requires
        m.wf(),
        unstake_emergency_result(m, staker, creator, pool_id, deposit_id) is Ok,
    ensures
        ({
            let m1 = unstake_emergency_next(m, staker, creator, pool_id, deposit_id);
            &&& unstake_emergency_result(m1, staker, creator, pool_id, deposit_id) == Err::<
                u64,
                StakingError,
            >(StakingError::DepositAlreadyWithdrawn)
            &&& unstake_emergency_next(m1, staker, creator, pool_id, deposit_id) == m1
        }),
{
    let m1 = unstake_emergency_next(m, staker, creator, pool_id, deposit_id);
    let di = m.deposit_index(staker, creator, pool_id, deposit_id);
    let pi = m.pool_index(creator, pool_id);
    lemma_find_index(m.deposits, deposit_key(staker, creator, pool_id, deposit_id));
    lemma_find_index(m.pools, pool_key(creator, pool_id));
    let d = m.deposits[di];
    let d2 = StakerDeposit { is_withdrawn: true, ..d };
    lemma_deposit_update_keeps_indexes(m.deposits, di, d2);
    lemma_pool_update_keeps_indexes(
        m.pools,
        pi,
        StakingPool {
            current_tokens_staked: (m.pools[pi].current_tokens_staked
                - d.tokens_deposited) as u64,
            ..m.pools[pi]
        },
    );
    assert(m1.deposit_index(staker, creator, pool_id, deposit_id) == di);
    assert(m1.pool_index(creator, pool_id) == pi);
    assert(m1.deposits[di].is_withdrawn);
}

/// Cooldown gating for `unstake` on an existing, active deposit of a pool
/// not in emergency mode: before activation it fails, after activation but
/// before the unlock time it fails, and at or after the unlock time it
/// succeeds.
pub proof fn lemma_cooldown_gates_unstake(
    m: LedgerView,
    staker: u64,
    creator: u64,
    pool_id: u64,
    deposit_id: u64,
    now: i64,
)
    requires
        m.wf(),
        m.deposit_index(staker, creator, pool_id, deposit_id) >= 0,
        !m.deposits[m.deposit_index(staker, creator, pool_id, deposit_id)].is_withdrawn,
        !m.pools[m.pool_index(creator, pool_id)].emergency_mode_enabled,
    ensures
        ({
            let d = m.deposits[m.deposit_index(staker, creator, pool_id, deposit_id)];
            &&& !d.is_cooldown_active ==> unstake_result(
                m,
                staker,
                creator,
                pool_id,
                deposit_id,
                now,
            ) == Err::<(u64, u64), StakingError>(StakingError::ClaimCooldownNotActive)
            &&& d.is_cooldown_active && now < d.unlock_timestamp ==> unstake_result(
                m,
                staker,
                creator,
                pool_id,
                deposit_id,
                now,
            ) == Err::<(u64, u64), StakingError>(StakingError::ClaimCooldownNotElapsed)
            &&& d.is_cooldown_active && now >= d.unlock_timestamp ==> unstake_result(
                m,
                staker,
                creator,
                pool_id,
                deposit_id,
                now,
            ) is Ok
        }),
{
    let di = m.deposit_index(staker, creator, pool_id, deposit_id);
    lemma_find_index(m.deposits, deposit_key(staker, creator, pool_id, deposit_id));
    assert(m.pool_index(m.deposits[di].pool_creator, m.deposits[di].pool_id) >= 0);
}

/// The full cooldown protocol: after a successful `activate_cooldown` at
/// `now0` on a pool out of emergency mode, `unstake` fails strictly before
/// `now0 + claim_cooldown` and succeeds at or after it.
pub proof fn lemma_activate_then_unstake(
    m: LedgerView,
    staker: u64,
    creator: u64,
    pool_id: u64,
    deposit_id: u64,
    now0: i64,
    now: i64,
)
    requires
        m.wf(),
        activate_cooldown_result(m, staker, creator, pool_id, deposit_id, now0) is Ok,
        !m.pools[m.pool_index(creator, pool_id)].emergency_mode_enabled,
    ensures
        ({
            let m1 = activate_cooldown_next(m, staker, creator, pool_id, deposit_id, now0);
            let unlock = now0 + m.pools[m.pool_index(creator, pool_id)].claim_cooldown;
            &&& now < unlock ==> unstake_result(m1, staker, creator, pool_id, deposit_id, now)
                == Err::<(u64, u64), StakingError>(StakingError::ClaimCooldownNotElapsed)
            &&& now >= unlock ==> unstake_result(
                m1,
                staker,
                creator,
                pool_id,
                deposit_id,
                now,
            ) is Ok
        }),
{
    let m1 = activate_cooldown_next(m, staker, creator, pool_id, deposit_id, now0);
    let di = m.deposit_index(staker, creator, pool_id, deposit_id);
    let pi = m.pool_index(creator, pool_id);
    lemma_find_index(m.deposits, deposit_key(staker, creator, pool_id, deposit_id));
    let d = m.deposits[di];
    let d2 = StakerDeposit {
        is_cooldown_active: true,
        unlock_timestamp: (now0 + m.pools[pi].claim_cooldown) as i64,
        ..d
    };
    lemma_deposit_update_keeps_indexes(m.deposits, di, d2);
    lemma_activate_cooldown_preserves_wf(m, staker, creator, pool_id, deposit_id, now0);
    assert(m1.deposit_index(staker, creator, pool_id, deposit_id) == di);
    assert(m1.deposits[di] == d2);
    lemma_cooldown_gates_unstake(m1, staker, creator, pool_id, deposit_id, now);
}

/// Re-arming is refused: a second `activate_cooldown` on the same deposit
/// fails and keeps the unlock time set by the first.
pub proof fn lemma_activate_cooldown_single_use(
    m: LedgerView,
    staker: u64,
    creator: u64,
    pool_id: u64,
    deposit_id: u64,
    now0: i64,
    now1: i64,
)
    requires
        m.wf(),
        activate_cooldown_result(m, staker, creator, pool_id, deposit_id, now0) is Ok,
    ensures
        ({
            let m1 = activate_cooldown_next(m, staker, creator, pool_id, deposit_id, now0);
            &&& activate_cooldown_result(m1, staker, creator, pool_id, deposit_id, now1) == Err::<
                (),
                StakingError,
            >(StakingError::CooldownAlreadyActivated)
            &&& activate_cooldown_next(m1, staker, creator, pool_id, deposit_id, now1) == m1
            &&& m1.deposits[m1.deposit_index(staker, creator, pool_id, deposit_id)]
                .unlock_timestamp == (now0 + m.pools[m.pool_index(
                creator,
                pool_id,
            )].claim_cooldown) as i64
        }),
{
    let m1 = activate_cooldown_next(m, staker, creator, pool_id, deposit_id, now0);
    let di = m.deposit_index(staker, creator, pool_id, deposit_id);
    let pi = m.pool_index(creator, pool_id);
    lemma_find_index(m.deposits, deposit_key(staker, creator, pool_id, deposit_id));
    let d = m.deposits[di];
    let d2 = StakerDeposit {
        is_cooldown_active: true,
        unlock_timestamp: (now0 + m.pools[pi].claim_cooldown) as i64,
        ..d
    };
    lemma_deposit_update_keeps_indexes(m.deposits, di, d2);
    assert(m1.deposit_index(staker, creator, pool_id, deposit_id) == di);
    assert(m1.deposits[di] == d2);
}

/// While a pool is in emergency mode, `stake` and `unstake` always fail —
/// whatever the deposit's cooldown state — and the state is unchanged.
pub proof fn lemma_emergency_blocks_normal_path(
    m: LedgerView,
    staker: u64,
    creator: u64,
    pool_id: u64,
    deposit_id: u64,
    amount: u64,
    now: i64,
)
    requires
        m.wf(),
        m.pool_index(creator, pool_id) >= 0,
        m.pools[m.pool_index(creator, pool_id)].emergency_mode_enabled,
    ensures
        m.deposit_index(staker, creator, pool_id, deposit_id) == -1 && amount > 0
            ==> stake_result(m, staker, creator, pool_id, deposit_id, amount, now) == Err::<
            (),
            StakingError,
        >(StakingError::EmergencyModeEnabled),
        m.deposit_index(staker, creator, pool_id, deposit_id) >= 0 ==> unstake_result(
            m,
            staker,
            creator,
            pool_id,
            deposit_id,
            now,
        ) == Err::<(u64, u64), StakingError>(StakingError::EmergencyModeEnabled),
        stake_next(m, staker, creator, pool_id, deposit_id, amount, now) == m,
        unstake_next(m, staker, creator, pool_id, deposit_id, now) == m,
{
}

/// While a pool is in emergency mode, every active deposit can exit at once:
/// `unstake_emergency` succeeds regardless of cooldown state and returns
/// exactly the principal.
pub proof fn lemma_emergency_enables_exit(
    m: LedgerView,
    staker: u64,
    creator: u64,
    pool_id: u64,
    deposit_id: u64,
)
    requires
        m.wf(),
        m.deposit_index(staker, creator, pool_id, deposit_id) >= 0,
        !m.deposits[m.deposit_index(staker, creator, pool_id, deposit_id)].is_withdrawn,
        m.pools[m.pool_index(creator, pool_id)].emergency_mode_enabled,
    ensures
        unstake_emergency_result(m, staker, creator, pool_id, deposit_id) == Ok::<
            u64,
            StakingError,
        >(m.deposits[m.deposit_index(staker, creator, pool_id, deposit_id)].tokens_deposited),
{
    let di = m.deposit_index(staker, creator, pool_id, deposit_id);
    lemma_find_index(m.deposits, deposit_key(staker, creator, pool_id, deposit_id));
    assert(m.pool_index(m.deposits[di].pool_creator, m.deposits[di].pool_id) >= 0);
}

/// While a pool is in emergency mode, its creator can always drain the
/// rewards: `withdraw_rewards_emergency` succeeds and returns the whole
/// balance, and afterwards the balance is zero.
pub proof fn lemma_emergency_enables_reward_withdrawal(
    m: LedgerView,
    creator: u64,
    pool_id: u64,
)
    requires
        m.wf(),
        m.pool_index(creator, pool_id) >= 0,
        m.pools[m.pool_index(creator, pool_id)].emergency_mode_enabled,
    ensures
        withdraw_rewards_emergency_result(m, creator, creator, pool_id) == Ok::<
            u64,
            StakingError,
        >(m.pools[m.pool_index(creator, pool_id)].current_rewards),
        withdraw_rewards_emergency_next(m, creator, creator, pool_id).pools[m.pool_index(
            creator,
            pool_id,
        )].current_rewards == 0,
{
    lemma_find_index(m.pools, pool_key(creator, pool_id));
}

} // verus!
