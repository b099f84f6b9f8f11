//! The executable staking ledger.
//!
//! [`StakingLedger`] owns every pool, deposit, and per-staker aggregate, and
//! offers exactly the operations of the state machine in
//! [`crate::transitions`].  Each method is proved to return the operation's
//! `.._result` and to leave the store at its `.._next`, and to keep the
//! store well-formed.
//!
//! The ledger never moves tokens and never reads a clock: callers pass the
//! current time in and receive the amounts to transfer back, and the host
//! performs the transfers atomically with the state change.

use vstd::prelude::*;

use crate::errors::StakingError;
use crate::model::{deposit_key, pool_key, stats_key, LedgerView};
use crate::records::{StakerDeposit, StakerStats, StakingPool};
use crate::seq_util::{find_index, lemma_find_index, lemma_find_index_push};
use crate::transitions::{
    change_pool_cooldown_next, change_pool_cooldown_result, create_pool_next, create_pool_result,
    enable_emergency_mode_next, enable_emergency_mode_result, fund_pool_next, fund_pool_result,
    withdraw_rewards_emergency_next, withdraw_rewards_emergency_result,
};

verus! {

/// The indexed store of all staking records.
pub struct StakingLedger {
    pools: Vec<StakingPool>,
    deposits: Vec<StakerDeposit>,
    stats: Vec<StakerStats>,
}

impl View for StakingLedger {
    type V = LedgerView;

    closed spec fn view(&self) -> LedgerView {
        LedgerView { pools: self.pools@, deposits: self.deposits@, stats: self.stats@ }
    }
}

impl StakingLedger {
    /// An empty, well-formed store.
    pub fn new() -> (r: StakingLedger)
        ensures
            r@.wf(),
            r@.pools == Seq::<StakingPool>::empty(),
            r@.deposits == Seq::<StakerDeposit>::empty(),
            r@.stats == Seq::<StakerStats>::empty(),
    {
        StakingLedger { pools: Vec::new(), deposits: Vec::new(), stats: Vec::new() }
    }

    /// Position of the pool keyed `(creator, pool_id)`.
    fn find_pool(pools: &Vec<StakingPool>, creator: u64, pool_id: u64) -> (r: Option<usize>)
        ensures
            r matches Some(k) ==> k < pools@.len() && k as int == find_index(
                pools@,
                pool_key(creator, pool_id),
            ) && pool_key(creator, pool_id)(pools@[k as int]),
            r is None ==> find_index(pools@, pool_key(creator, pool_id)) == -1,
    {
        let mut k: usize = 0;
        while k < pools.len()
            invariant
                0 <= k <= pools@.len(),
                forall|j: int| 0 <= j < k ==> !#[trigger] pool_key(creator, pool_id)(pools@[j]),
            decreases pools@.len() - k,
        {
            if pools[k].creator == creator && pools[k].pool_id == pool_id {
                proof {
                    assert(pool_key(creator, pool_id)(pools@[k as int]));
                    lemma_find_index(pools@, pool_key(creator, pool_id));
                }
                return Some(k);
            }
            proof {
                assert(!pool_key(creator, pool_id)(pools@[k as int]));
            }
            k += 1;
        }
        proof {
            lemma_find_index(pools@, pool_key(creator, pool_id));
        }
        None
    }

    /// Position of the deposit keyed `(staker, creator, pool_id,
    /// deposit_id)`.
    fn find_deposit(
        deposits: &Vec<StakerDeposit>,
        staker: u64,
        creator: u64,
        pool_id: u64,
        deposit_id: u64,
    ) -> (r: Option<usize>)
        ensures
            r matches Some(k) ==> k < deposits@.len() && k as int == find_index(
                deposits@,
                deposit_key(staker, creator, pool_id, deposit_id),
            ) && deposit_key(staker, creator, pool_id, deposit_id)(deposits@[k as int]),
            r is None ==> find_index(deposits@, deposit_key(staker, creator, pool_id, deposit_id))
                == -1,
    {
        let mut k: usize = 0;
        while k < deposits.len()
            invariant
                0 <= k <= deposits@.len(),
                forall|j: int|
                    0 <= j < k ==> !#[trigger] deposit_key(staker, creator, pool_id, deposit_id)(
                        deposits@[j],
                    ),
            decreases deposits@.len() - k,
        {
            if deposits[k].staker == staker && deposits[k].pool_creator == creator
                && deposits[k].pool_id == pool_id && deposits[k].deposit_id == deposit_id {
                proof {
                    assert(deposit_key(staker, creator, pool_id, deposit_id)(
                        deposits@[k as int],
                    ));
                    lemma_find_index(deposits@, deposit_key(staker, creator, pool_id, deposit_id));
                }
                return Some(k);
            }
            proof {
                assert(!deposit_key(staker, creator, pool_id, deposit_id)(deposits@[k as int]));
            }
            k += 1;
        }
        proof {
            lemma_find_index(deposits@, deposit_key(staker, creator, pool_id, deposit_id));
        }
        None
    }

    /// Position of `staker`'s aggregate record.
    fn find_stats(stats: &Vec<StakerStats>, staker: u64) -> (r: Option<usize>)
        ensures
            r matches Some(k) ==> k < stats@.len() && k as int == find_index(
                stats@,
                stats_key(staker),
            ) && stats_key(staker)(stats@[k as int]),
            r is None ==> find_index(stats@, stats_key(staker)) == -1,
    {
        let mut k: usize = 0;
        while k < stats.len()
            invariant
                0 <= k <= stats@.len(),
                forall|j: int| 0 <= j < k ==> !#[trigger] stats_key(staker)(stats@[j]),
            decreases stats@.len() - k,
        {
            if stats[k].staker == staker {
                proof {
                    assert(stats_key(staker)(stats@[k as int]));
                    lemma_find_index(stats@, stats_key(staker));
                }
                return Some(k);
            }
            proof {
                assert(!stats_key(staker)(stats@[k as int]));
            }
            k += 1;
        }
        proof {
            lemma_find_index(stats@, stats_key(staker));
        }
        None
    }

    /// Creates a new pool owned by `creator`, with `initial_funding_amount`
    /// as its starting reward balance.  The caller must move that amount
    /// into the pool's vault; a failed transfer must abort the whole
    /// operation.
    pub fn create_pool(
        &mut self,
        creator: u64,
        pool_id: u64,
        initial_funding_amount: u64,
        claim_cooldown: i64,
    ) -> (r: Result<(), StakingError>)
        requires
            old(self)@.wf(),
        ensures
            r == create_pool_result(
                old(self)@,
                creator,
                pool_id,
                initial_funding_amount,
                claim_cooldown,
            ),
            final(self)@ == create_pool_next(
                old(self)@,
                creator,
                pool_id,
                initial_funding_amount,
                claim_cooldown,
            ),
            final(self)@.wf(),
    {
        let ghost m0 = self@;
        if Self::find_pool(&self.pools, creator, pool_id).is_some() {
            return Err(StakingError::PoolAlreadyExists);
        }
        self.pools.push(
            crate::instructions::init_pool(creator, pool_id, initial_funding_amount, claim_cooldown),
        );
        proof {
            crate::laws::lemma_create_pool_preserves_wf(
                m0,
                creator,
                pool_id,
                initial_funding_amount,
                claim_cooldown,
            );
            assert(self@ =~= create_pool_next(
                m0,
                creator,
                pool_id,
                initial_funding_amount,
                claim_cooldown,
            ));
        }
        Ok(())
    }

    /// Adds `amount` to the pool's reward balance; creator-only.  The caller
    /// must move `amount` into the pool's vault.
    pub fn fund_pool(&mut self, signer: u64, creator: u64, pool_id: u64, amount: u64) -> (r:
        Result<(), StakingError>)
        requires
            old(self)@.wf(),
        ensures
            r == fund_pool_result(old(self)@, signer, creator, pool_id, amount),
            final(self)@ == fund_pool_next(old(self)@, signer, creator, pool_id, amount),
            final(self)@.wf(),
    {
        let ghost m0 = self@;
        let pi = match Self::find_pool(&self.pools, creator, pool_id) {
            Some(pi) => pi,
            None => {
                return Err(StakingError::PoolNotFound);
            },
        };
        let mut p = self.pools[pi];
        match crate::instructions::fund_pool_record(&mut p, signer, amount) {
            Ok(()) => {
                self.pools[pi] = p;
                proof {
                    crate::laws::lemma_fund_pool_preserves_wf(m0, signer, creator, pool_id, amount);
                    assert(self@ =~= fund_pool_next(m0, signer, creator, pool_id, amount));
                }
                Ok(())
            },
            Err(e) => Err(e),
        }
    }

    /// Switches the pool into emergency mode; creator-only, one-way.
    pub fn enable_emergency_mode(&mut self, signer: u64, creator: u64, pool_id: u64) -> (r: Result<
        (),
        StakingError,
    >)
        requires
            old(self)@.wf(),
        ensures
            r == enable_emergency_mode_result(old(self)@, signer, creator, pool_id),
            final(self)@ == enable_emergency_mode_next(old(self)@, signer, creator, pool_id),
            final(self)@.wf(),
    {
        let ghost m0 = self@;
        let pi = match Self::find_pool(&self.pools, creator, pool_id) {
            Some(pi) => pi,
            None => {
                return Err(StakingError::PoolNotFound);
            },
        };
        let mut p = self.pools[pi];
        match crate::instructions::enable_emergency_mode_record(&mut p, signer) {
            Ok(()) => {
                self.pools[pi] = p;
                proof {
                    crate::laws::lemma_enable_emergency_mode_preserves_wf(
                        m0,
                        signer,
                        creator,
                        pool_id,
                    );
                    assert(self@ =~= enable_emergency_mode_next(m0, signer, creator, pool_id));
                }
                Ok(())
            },
            Err(e) => Err(e),
        }
    }

    /// Changes the pool's cooldown; creator-only.  Only cooldowns activated
    /// afterwards are affected: already-armed deposits keep their unlock
    /// time.
    pub fn change_pool_cooldown(
        &mut self,
        signer: u64,
        creator: u64,
        pool_id: u64,
        new_cooldown: i64,
    ) -> (r: Result<(), StakingError>)
        requires
            old(self)@.wf(),
        ensures
            r == change_pool_cooldown_result(old(self)@, signer, creator, pool_id, new_cooldown),
            final(self)@ == change_pool_cooldown_next(
                old(self)@,
                signer,
                creator,
                pool_id,
                new_cooldown,
            ),
            final(self)@.wf(),
    {
        let ghost m0 = self@;
        let pi = match Self::find_pool(&self.pools, creator, pool_id) {
            Some(pi) => pi,
            None => {
                return Err(StakingError::PoolNotFound);
            },
        };
        let mut p = self.pools[pi];
        match crate::instructions::change_pool_cooldown_record(&mut p, signer, new_cooldown) {
            Ok(()) => {
                self.pools[pi] = p;
                proof {
                    crate::laws::lemma_change_pool_cooldown_preserves_wf(
                        m0,
                        signer,
                        creator,
                        pool_id,
                        new_cooldown,
                    );
                    assert(self@ =~= change_pool_cooldown_next(
                        m0,
                        signer,
                        creator,
                        pool_id,
                        new_cooldown,
                    ));
                }
                Ok(())
            },
            Err(e) => Err(e),
        }
    }

    /// Drains the pool's whole reward balance; creator-only, emergency mode
    /// only.  Returns the drained amount, which the caller must transfer to
    /// the creator; the balance is zeroed before the transfer is issued.
    pub fn withdraw_rewards_emergency(&mut self, signer: u64, creator: u64, pool_id: u64) -> (r:
        Result<u64, StakingError>)
        requires
            old(self)@.wf(),
        ensures
            r == withdraw_rewards_emergency_result(old(self)@, signer, creator, pool_id),
            final(self)@ == withdraw_rewards_emergency_next(old(self)@, signer, creator, pool_id),
            final(self)@.wf(),
    {
        let ghost m0 = self@;
        let pi = match Self::find_pool(&self.pools, creator, pool_id) {
            Some(pi) => pi,
            None => {
                return Err(StakingError::PoolNotFound);
            },
        };
        let mut p = self.pools[pi];
        match crate::instructions::withdraw_rewards_emergency_record(&mut p, signer) {
            Ok(drained) => {
                self.pools[pi] = p;
                proof {
                    crate::laws::lemma_withdraw_rewards_emergency_preserves_wf(
                        m0,
                        signer,
                        creator,
                        pool_id,
                    );
                    assert(self@ =~= withdraw_rewards_emergency_next(m0, signer, creator, pool_id));
                }
                Ok(drained)
            },
            Err(e) => Err(e),
        }
    }
    /// Records a new deposit of `amount` tokens by `staker` into the pool
    /// keyed `(creator, pool_id)`, read at time `now`.  The caller must move
    /// `amount` into the pool's vault; a failed transfer must abort the
    /// whole operation.
    pub fn stake(
        &mut self,
        staker: u64,
        creator: u64,
        pool_id: u64,
        deposit_id: u64,
        amount: u64,
        now: i64,
    ) -> (r: Result<(), StakingError>)
        requires
            old(self)@.wf(),
        ensures
            r == crate::transitions::stake_result(
                old(self)@,
                staker,
                creator,
                pool_id,
                deposit_id,
                amount,
                now,
            ),
            final(self)@ == crate::transitions::stake_next(
                old(self)@,
                staker,
                creator,
                pool_id,
                deposit_id,
                amount,
                now,
            ),
            final(self)@.wf(),
    {
        let ghost m0 = self@;
        let pi = match Self::find_pool(&self.pools, creator, pool_id) {
            Some(pi) => pi,
            None => {
                return Err(StakingError::PoolNotFound);
            },
        };
        if Self::find_deposit(&self.deposits, staker, creator, pool_id, deposit_id).is_some() {
            return Err(StakingError::DepositAlreadyExists);
        }
        let si_opt = Self::find_stats(&self.stats, staker);
        let mut p = self.pools[pi];
        let mut t = match si_opt {
            Some(si) => self.stats[si],
            None => StakerStats { staker, total_staked: 0 },
        };
        match crate::instructions::stake_record(&mut p, &mut t, staker, deposit_id, amount, now) {
            Ok(d) => {
                let si = match si_opt {
                    Some(si) => si,
                    None => {
                        self.stats.push(StakerStats { staker, total_staked: 0 });
                        proof {
                            lemma_find_index_push(
                                m0.stats,
                                StakerStats { staker, total_staked: 0 },
                                stats_key(staker),
                            );
                        }
                        self.stats.len() - 1
                    },
                };
                self.stats[si] = t;
                self.pools[pi] = p;
                self.deposits.push(d);
                proof {
                    crate::laws::lemma_stake_preserves_wf(
                        m0,
                        staker,
                        creator,
                        pool_id,
                        deposit_id,
                        amount,
                        now,
                    );
                    assert(self@ =~= crate::transitions::stake_next(
                        m0,
                        staker,
                        creator,
                        pool_id,
                        deposit_id,
                        amount,
                        now,
                    ));
                }
                Ok(())
            },
            Err(e) => Err(e),
        }
    }

    /// Arms the deposit's cooldown — a single-use step that `unstake`
    /// requires — and sets its unlock time to `now` plus the pool's current
    /// cooldown.
    pub fn activate_cooldown(
        &mut self,
        staker: u64,
        creator: u64,
        pool_id: u64,
        deposit_id: u64,
        now: i64,
    ) -> (r: Result<(), StakingError>)
        requires
            old(self)@.wf(),
        ensures
            r == crate::transitions::activate_cooldown_result(
                old(self)@,
                staker,
                creator,
                pool_id,
                deposit_id,
                now,
            ),
            final(self)@ == crate::transitions::activate_cooldown_next(
                old(self)@,
                staker,
                creator,
                pool_id,
                deposit_id,
                now,
            ),
            final(self)@.wf(),
    {
        let ghost m0 = self@;
        let di = match Self::find_deposit(&self.deposits, staker, creator, pool_id, deposit_id) {
            Some(di) => di,
            None => {
                return Err(StakingError::DepositNotFound);
            },
        };
        let pi = match Self::find_pool(&self.pools, creator, pool_id) {
            Some(pi) => pi,
            None => {
                return Err(StakingError::PoolNotFound);
            },
        };
        let mut d = self.deposits[di];
        let p = self.pools[pi];
        match crate::instructions::activate_cooldown_record(&mut d, &p, now) {
            Ok(()) => {
                self.deposits[di] = d;
                proof {
                    crate::laws::lemma_activate_cooldown_preserves_wf(
                        m0,
                        staker,
                        creator,
                        pool_id,
                        deposit_id,
                        now,
                    );
                    assert(self@ =~= crate::transitions::activate_cooldown_next(
                        m0,
                        staker,
                        creator,
                        pool_id,
                        deposit_id,
                        now,
                    ));
                }
                Ok(())
            },
            Err(e) => Err(e),
        }
    }

    /// Withdraws a deposit after its cooldown has elapsed, paying the
    /// proportional share of the pool's rewards.  Returns `(principal,
    /// reward)`; the caller must transfer both amounts from the pool's vault
    /// to the staker, after this state change, and a failed transfer must
    /// abort the whole operation.
    pub fn unstake(
        &mut self,
        staker: u64,
        creator: u64,
        pool_id: u64,
        deposit_id: u64,
        now: i64,
    ) -> (r: Result<(u64, u64), StakingError>)
        requires
            old(self)@.wf(),
        ensures
            r == crate::transitions::unstake_result(
                old(self)@,
                staker,
                creator,
                pool_id,
                deposit_id,
                now,
            ),
            final(self)@ == crate::transitions::unstake_next(
                old(self)@,
                staker,
                creator,
                pool_id,
                deposit_id,
                now,
            ),
            final(self)@.wf(),
    {
        let ghost m0 = self@;
        let di = match Self::find_deposit(&self.deposits, staker, creator, pool_id, deposit_id) {
            Some(di) => di,
            None => {
                return Err(StakingError::DepositNotFound);
            },
        };
        let pi = match Self::find_pool(&self.pools, creator, pool_id) {
            Some(pi) => pi,
            None => {
                return Err(StakingError::PoolNotFound);
            },
        };
        let si = match Self::find_stats(&self.stats, staker) {
            Some(si) => si,
            None => {
                proof {
                    assert(m0.stats_index(m0.deposits[di as int].staker) >= 0);
                }
                unreached()
            },
        };
        let mut p = self.pools[pi];
        let mut d = self.deposits[di];
        let mut t = self.stats[si];
        proof {
            if !d.is_withdrawn {
                crate::model::lemma_active_deposit_within_totals(m0, di as int);
            }
        }
        match crate::instructions::unstake_record(&mut p, &mut d, &mut t, now) {
            Ok((principal, reward)) => {
                self.deposits[di] = d;
                self.stats[si] = t;
                self.pools[pi] = p;
                proof {
                    crate::laws::lemma_unstake_preserves_wf(
                        m0,
                        staker,
                        creator,
                        pool_id,
                        deposit_id,
                        now,
                    );
                    assert(self@ =~= crate::transitions::unstake_next(
                        m0,
                        staker,
                        creator,
                        pool_id,
                        deposit_id,
                        now,
                    ));
                }
                Ok((principal, reward))
            },
            Err(e) => Err(e),
        }
    }

    /// Withdraws a deposit's principal immediately, with no reward and no
    /// cooldown gating; valid only while the pool is in emergency mode.
    /// Returns the principal, which the caller must transfer back to the
    /// staker.
    pub fn unstake_emergency(
        &mut self,
        staker: u64,
        creator: u64,
        pool_id: u64,
        deposit_id: u64,
    ) -> (r: Result<u64, StakingError>)
        requires
            old(self)@.wf(),
        ensures
            r == crate::transitions::unstake_emergency_result(
                old(self)@,
                staker,
                creator,
                pool_id,
                deposit_id,
            ),
            final(self)@ == crate::transitions::unstake_emergency_next(
                old(self)@,
                staker,
                creator,
                pool_id,
                deposit_id,
            ),
            final(self)@.wf(),
    {
        let ghost m0 = self@;
        let di = match Self::find_deposit(&self.deposits, staker, creator, pool_id, deposit_id) {
            Some(di) => di,
            None => {
                return Err(StakingError::DepositNotFound);
            },
        };
        let pi = match Self::find_pool(&self.pools, creator, pool_id) {
            Some(pi) => pi,
            None => {
                return Err(StakingError::PoolNotFound);
            },
        };
        let si = match Self::find_stats(&self.stats, staker) {
            Some(si) => si,
            None => {
                proof {
                    assert(m0.stats_index(m0.deposits[di as int].staker) >= 0);
                }
                unreached()
            },
        };
        let mut p = self.pools[pi];
        let mut d = self.deposits[di];
        let mut t = self.stats[si];
        proof {
            if !d.is_withdrawn {
                crate::model::lemma_active_deposit_within_totals(m0, di as int);
            }
        }
        match crate::instructions::unstake_emergency_record(&mut p, &mut d, &mut t) {
            Ok(principal) => {
                self.deposits[di] = d;
                self.stats[si] = t;
                self.pools[pi] = p;
                proof {
                    crate::laws::lemma_unstake_emergency_preserves_wf(
                        m0,
                        staker,
                        creator,
                        pool_id,
                        deposit_id,
                    );
                    assert(self@ =~= crate::transitions::unstake_emergency_next(
                        m0,
                        staker,
                        creator,
                        pool_id,
                        deposit_id,
                    ));
                }
                Ok(principal)
            },
            Err(e) => Err(e),
        }
    }

    /// The pool keyed `(creator, pool_id)`, if it exists.
    pub fn get_pool(&self, creator: u64, pool_id: u64) -> (r: Option<StakingPool>)
        ensures
            r == (if self@.pool_index(creator, pool_id) >= 0 {
                Some(self@.pools[self@.pool_index(creator, pool_id)])
            } else {
                None::<StakingPool>
            }),
    {
        match Self::find_pool(&self.pools, creator, pool_id) {
            Some(pi) => Some(self.pools[pi]),
            None => None,
        }
    }

    /// The deposit keyed `(staker, creator, pool_id, deposit_id)`, if it
    /// exists.
    pub fn get_deposit(
        &self,
        staker: u64,
        creator: u64,
        pool_id: u64,
        deposit_id: u64,
    ) -> (r: Option<StakerDeposit>)
        ensures
            r == (if self@.deposit_index(staker, creator, pool_id, deposit_id) >= 0 {
                Some(self@.deposits[self@.deposit_index(staker, creator, pool_id, deposit_id)])
            } else {
                None::<StakerDeposit>
            }),
    {
        match Self::find_deposit(&self.deposits, staker, creator, pool_id, deposit_id) {
            Some(di) => Some(self.deposits[di]),
            None => None,
        }
    }

    /// `staker`'s aggregate record, if the staker has ever staked.
    pub fn get_staker_stats(&self, staker: u64) -> (r: Option<StakerStats>)
        ensures
            r == (if self@.stats_index(staker) >= 0 {
                Some(self@.stats[self@.stats_index(staker)])
            } else {
                None::<StakerStats>
            }),
    {
        match Self::find_stats(&self.stats, staker) {
            Some(si) => Some(self.stats[si]),
            None => None,
        }
    }
}

} // verus!
