//! The mathematical view of the staking ledger and its well-formedness
//! invariant.
//!
//! `LedgerView` holds the three record sequences.  Its invariant `wf` ties
//! the aggregate counters to the deposits they summarize: each pool's
//! `current_tokens_staked` equals the sum of its non-withdrawn deposits, and
//! each staker's `total_staked` equals the sum of that staker's non-withdrawn
//! deposits across all pools.

use vstd::prelude::*;

use crate::records::{StakerDeposit, StakerStats, StakingPool};
use crate::seq_util::{find_index, lemma_sum_by_member, sum_by};

verus! {

/// Matches the pool keyed `(creator, pool_id)`.
pub open spec fn pool_key(creator: u64, pool_id: u64) -> spec_fn(StakingPool) -> bool {
    |p: StakingPool| p.creator == creator && p.pool_id == pool_id
}

/// Matches the deposit keyed `(staker, creator, pool_id, deposit_id)`.
pub open spec fn deposit_key(staker: u64, creator: u64, pool_id: u64, deposit_id: u64) -> spec_fn(
    StakerDeposit,
) -> bool {
    |d: StakerDeposit| d.staker == staker && d.pool_creator == creator && d.pool_id == pool_id
        && d.deposit_id == deposit_id
}

/// Matches the aggregate record of `staker`.
pub open spec fn stats_key(staker: u64) -> spec_fn(StakerStats) -> bool {
    |t: StakerStats| t.staker == staker
}

/// A deposit's contribution to the staked total of the pool keyed
/// `(creator, pool_id)`: its principal while active in that pool, else zero.
pub open spec fn pool_stake_measure(creator: u64, pool_id: u64) -> spec_fn(StakerDeposit) -> int {
    |d: StakerDeposit| if d.references_pool(creator, pool_id) && d.is_active() {
        d.tokens_deposited as int
    } else {
        0
    }
}

/// A deposit's contribution to `staker`'s aggregate: its principal while
/// active and owned by `staker`, else zero.
pub open spec fn staker_stake_measure(staker: u64) -> spec_fn(StakerDeposit) -> int {
    |d: StakerDeposit| if d.staker == staker && d.is_active() {
        d.tokens_deposited as int
    } else {
        0
    }
}

/// The state of the whole store: every pool, deposit, and per-staker
/// aggregate.
#[verifier::ext_equal]
pub struct LedgerView {
    pub pools: Seq<StakingPool>,
    pub deposits: Seq<StakerDeposit>,
    pub stats: Seq<StakerStats>,
}

impl LedgerView {
    /// Index of the pool keyed `(creator, pool_id)`, or `-1`.
    pub open spec fn pool_index(self, creator: u64, pool_id: u64) -> int {
        find_index(self.pools, pool_key(creator, pool_id))
    }

    /// Index of the deposit keyed `(staker, creator, pool_id, deposit_id)`,
    /// or `-1`.
    pub open spec fn deposit_index(
        self,
        staker: u64,
        creator: u64,
        pool_id: u64,
        deposit_id: u64,
    ) -> int {
        find_index(self.deposits, deposit_key(staker, creator, pool_id, deposit_id))
    }

    /// Index of `staker`'s aggregate record, or `-1`.
    pub open spec fn stats_index(self, staker: u64) -> int {
        find_index(self.stats, stats_key(staker))
    }

    /// Sum of the active deposits of the pool keyed `(creator, pool_id)`.
    pub open spec fn pool_staked_total(self, creator: u64, pool_id: u64) -> int {
        sum_by(self.deposits, pool_stake_measure(creator, pool_id))
    }

    /// Sum of `staker`'s active deposits, across all pools.
    pub open spec fn staker_staked_total(self, staker: u64) -> int {
        sum_by(self.deposits, staker_stake_measure(staker))
    }

    /// No two pools share a key.
    pub open spec fn pools_unique(self) -> bool {
        forall|i: int, j: int|
            0 <= i < j < self.pools.len() ==> !(#[trigger] self.pools[i].same_key(
                self.pools[j],
            ))
    }

    /// No two deposits share a key.
    pub open spec fn deposits_unique(self) -> bool {
        forall|i: int, j: int|
            0 <= i < j < self.deposits.len() ==> !(#[trigger] self.deposits[i].same_key(
                self.deposits[j],
            ))
    }

    /// No two aggregate records belong to the same staker.
    pub open spec fn stats_unique(self) -> bool {
        forall|i: int, j: int|
            0 <= i < j < self.stats.len() ==> (#[trigger] self.stats[i]).staker != (
            #[trigger] self.stats[j]).staker
    }

    /// Every deposit references a pool that exists.
    pub open spec fn deposit_pools_exist(self) -> bool {
        forall|k: int|
            0 <= k < self.deposits.len() ==> self.pool_index(
                (#[trigger] self.deposits[k]).pool_creator,
                self.deposits[k].pool_id,
            ) >= 0
    }

    /// Every deposit's owner has an aggregate record.
    pub open spec fn deposit_stats_exist(self) -> bool {
        forall|k: int|
            0 <= k < self.deposits.len() ==> self.stats_index(
                (#[trigger] self.deposits[k]).staker,
            ) >= 0
    }

    /// Every deposit holds a positive principal.
    pub open spec fn deposit_amounts_positive(self) -> bool {
        forall|k: int|
            0 <= k < self.deposits.len() ==> (#[trigger] self.deposits[k]).tokens_deposited > 0
    }

    /// Every pool's staked counter equals the sum of its active deposits.
    pub open spec fn pool_totals_correct(self) -> bool {
        forall|i: int|
            0 <= i < self.pools.len() ==> (#[trigger] self.pools[i]).current_tokens_staked
                == self.pool_staked_total(self.pools[i].creator, self.pools[i].pool_id)
    }

    /// Every staker's aggregate equals the sum of their active deposits.
    pub open spec fn stats_totals_correct(self) -> bool {
        forall|i: int|
            0 <= i < self.stats.len() ==> (#[trigger] self.stats[i]).total_staked
                == self.staker_staked_total(self.stats[i].staker)
    }

    /// Well-formedness: the invariant every operation preserves.
    pub open spec fn wf(self) -> bool {
        &&& self.pools_unique()
        &&& self.deposits_unique()
        &&& self.stats_unique()
        &&& self.deposit_pools_exist()
        &&& self.deposit_stats_exist()
        &&& self.deposit_amounts_positive()
        &&& self.pool_totals_correct()
        &&& self.stats_totals_correct()
    }
}

/// Both stake measures are non-negative for every deposit.
pub proof fn lemma_stake_measures_nonneg(deposits: Seq<StakerDeposit>, creator: u64, pool_id: u64, staker: u64)
    ensures
        forall|j: int|
            0 <= j < deposits.len() ==> #[trigger] pool_stake_measure(creator, pool_id)(
                deposits[j],
            ) >= 0,
        forall|j: int|
            0 <= j < deposits.len() ==> #[trigger] staker_stake_measure(staker)(deposits[j]) >= 0,
{
}

/// Replacing a pool by one with the same key moves no pool index.
pub proof fn lemma_pool_update_keeps_indexes(pools: Seq<StakingPool>, i: int, p2: StakingPool)
    requires
        0 <= i < pools.len(),
        p2.same_key(pools[i]),
    ensures
        forall|c: u64, id: u64|
            #[trigger] find_index(pools.update(i, p2), pool_key(c, id)) == find_index(
                pools,
                pool_key(c, id),
            ),
{
    assert forall|c: u64, id: u64|
        #[trigger] find_index(pools.update(i, p2), pool_key(c, id)) == find_index(
            pools,
            pool_key(c, id),
        ) by {
        crate::seq_util::lemma_find_index_update(pools, i, p2, pool_key(c, id));
    }
}

/// Replacing a deposit by one with the same key moves no deposit index.
pub proof fn lemma_deposit_update_keeps_indexes(
    deposits: Seq<StakerDeposit>,
    i: int,
    d2: StakerDeposit,
)
    requires
        0 <= i < deposits.len(),
        d2.same_key(deposits[i]),
    ensures
        forall|s: u64, c: u64, id: u64, did: u64|
            #[trigger] find_index(deposits.update(i, d2), deposit_key(s, c, id, did))
                == find_index(deposits, deposit_key(s, c, id, did)),
{
    assert forall|s: u64, c: u64, id: u64, did: u64|
        #[trigger] find_index(deposits.update(i, d2), deposit_key(s, c, id, did)) == find_index(
            deposits,
            deposit_key(s, c, id, did),
        ) by {
        crate::seq_util::lemma_find_index_update(deposits, i, d2, deposit_key(s, c, id, did));
    }
}

/// Replacing an aggregate record by one for the same staker moves no index.
pub proof fn lemma_stats_update_keeps_indexes(stats: Seq<StakerStats>, i: int, t2: StakerStats)
    requires
        0 <= i < stats.len(),
        t2.staker == stats[i].staker,
    ensures
        forall|s: u64|
            #[trigger] find_index(stats.update(i, t2), stats_key(s)) == find_index(
                stats,
                stats_key(s),
            ),
{
    assert forall|s: u64|
        #[trigger] find_index(stats.update(i, t2), stats_key(s)) == find_index(
            stats,
            stats_key(s),
        ) by {
        crate::seq_util::lemma_find_index_update(stats, i, t2, stats_key(s));
    }
}

/// How replacing one deposit changes every pool total and staker total: by
/// the difference of the old and new contributions.
pub proof fn lemma_deposit_update_sums(deposits: Seq<StakerDeposit>, i: int, d2: StakerDeposit)
    requires
        0 <= i < deposits.len(),
    ensures
        forall|c: u64, id: u64|
            #[trigger] sum_by(deposits.update(i, d2), pool_stake_measure(c, id)) == sum_by(
                deposits,
                pool_stake_measure(c, id),
            ) - pool_stake_measure(c, id)(deposits[i]) + pool_stake_measure(c, id)(d2),
        forall|s: u64|
            #[trigger] sum_by(deposits.update(i, d2), staker_stake_measure(s)) == sum_by(
                deposits,
                staker_stake_measure(s),
            ) - staker_stake_measure(s)(deposits[i]) + staker_stake_measure(s)(d2),
{
    assert forall|c: u64, id: u64|
        #[trigger] sum_by(deposits.update(i, d2), pool_stake_measure(c, id)) == sum_by(
            deposits,
            pool_stake_measure(c, id),
        ) - pool_stake_measure(c, id)(deposits[i]) + pool_stake_measure(c, id)(d2) by {
        crate::seq_util::lemma_sum_by_update(deposits, i, d2, pool_stake_measure(c, id));
    }
    assert forall|s: u64|
        #[trigger] sum_by(deposits.update(i, d2), staker_stake_measure(s)) == sum_by(
            deposits,
            staker_stake_measure(s),
        ) - staker_stake_measure(s)(deposits[i]) + staker_stake_measure(s)(d2) by {
        crate::seq_util::lemma_sum_by_update(deposits, i, d2, staker_stake_measure(s));
    }
}

/// How appending one deposit changes every pool total and staker total: by
/// the new deposit's contribution.
pub proof fn lemma_deposit_push_sums(deposits: Seq<StakerDeposit>, d2: StakerDeposit)
    ensures
        forall|c: u64, id: u64|
            #[trigger] sum_by(deposits.push(d2), pool_stake_measure(c, id)) == sum_by(
                deposits,
                pool_stake_measure(c, id),
            ) + pool_stake_measure(c, id)(d2),
        forall|s: u64|
            #[trigger] sum_by(deposits.push(d2), staker_stake_measure(s)) == sum_by(
                deposits,
                staker_stake_measure(s),
            ) + staker_stake_measure(s)(d2),
{
    assert forall|c: u64, id: u64|
        #[trigger] sum_by(deposits.push(d2), pool_stake_measure(c, id)) == sum_by(
            deposits,
            pool_stake_measure(c, id),
        ) + pool_stake_measure(c, id)(d2) by {
        crate::seq_util::lemma_sum_by_push(deposits, d2, pool_stake_measure(c, id));
    }
    assert forall|s: u64|
        #[trigger] sum_by(deposits.push(d2), staker_stake_measure(s)) == sum_by(
            deposits,
            staker_stake_measure(s),
        ) + staker_stake_measure(s)(d2) by {
        crate::seq_util::lemma_sum_by_push(deposits, d2, staker_stake_measure(s));
    }
}

/// A pool key absent from a well-formed store has a zero staked sum, since
/// every deposit references a pool that exists.
pub proof fn lemma_absent_pool_sum_zero(m: LedgerView, creator: u64, pool_id: u64)
    requires
        m.deposit_pools_exist(),
        m.pool_index(creator, pool_id) == -1,
    ensures
        m.pool_staked_total(creator, pool_id) == 0,
{
    assert forall|j: int|
        0 <= j < m.deposits.len() implies #[trigger] pool_stake_measure(creator, pool_id)(
        m.deposits[j],
    ) == 0 by {
        if m.deposits[j].references_pool(creator, pool_id) {
            assert(m.pool_index(m.deposits[j].pool_creator, m.deposits[j].pool_id) >= 0);
        }
    }
    crate::seq_util::lemma_sum_by_zero(m.deposits, pool_stake_measure(creator, pool_id));
}

/// A staker with no aggregate record in a well-formed store has a zero
/// staked sum, since every deposit's owner has a record.
pub proof fn lemma_absent_staker_sum_zero(m: LedgerView, staker: u64)
    requires
        m.deposit_stats_exist(),
        m.stats_index(staker) == -1,
    ensures
        m.staker_staked_total(staker) == 0,
{
    assert forall|j: int|
        0 <= j < m.deposits.len() implies #[trigger] staker_stake_measure(staker)(
        m.deposits[j],
    ) == 0 by {
        if m.deposits[j].staker == staker {
            assert(m.stats_index(m.deposits[j].staker) >= 0);
        }
    }
    crate::seq_util::lemma_sum_by_zero(m.deposits, staker_stake_measure(staker));
}

/// An active deposit's principal never exceeds its pool's staked counter nor
/// its owner's aggregate.
pub proof fn lemma_active_deposit_within_totals(m: LedgerView, k: int)
    requires
        m.wf(),
        0 <= k < m.deposits.len(),
        m.deposits[k].is_active(),
    ensures
        m.deposits[k].tokens_deposited <= m.pools[m.pool_index(
            m.deposits[k].pool_creator,
            m.deposits[k].pool_id,
        )].current_tokens_staked,
        m.deposits[k].tokens_deposited <= m.stats[m.stats_index(
            m.deposits[k].staker,
        )].total_staked,
{
    let d = m.deposits[k];
    lemma_stake_measures_nonneg(m.deposits, d.pool_creator, d.pool_id, d.staker);
    lemma_sum_by_member(m.deposits, k, pool_stake_measure(d.pool_creator, d.pool_id));
    lemma_sum_by_member(m.deposits, k, staker_stake_measure(d.staker));
    crate::seq_util::lemma_find_index(m.pools, pool_key(d.pool_creator, d.pool_id));
    crate::seq_util::lemma_find_index(m.stats, stats_key(d.staker));
}

} // verus!
