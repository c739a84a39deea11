//! The pool of the proxy node: transactions that carry the expected nonce are
//! scheduled, all others are held back. Nothing that is held is promoted, and nothing
//! is refused for its nonce.

use crate::assoc::AssocList;
use crate::nonces::Nonces;
use crate::primitives::Address;
use crate::transaction::Transaction;
use crate::tx_pool::{add_result, held_of, held_with, PoolError, PoolState};
use std::collections::VecDeque;
use vstd::prelude::*;

verus! {

/// The queue of scheduled transactions and the transactions held per sender.
pub struct Pool {
    scheduled: VecDeque<Transaction>,
    pending: AssocList<Address, Vec<Transaction>>,
}

/// Whether the pool takes `tx`, and why not: the signer must be recoverable and have
/// an entry in the nonce table.
pub open spec fn pool_add_result(nonces: Map<Address, u64>, tx: Transaction) -> Result<
    (),
    PoolError,
> {
    match add_result(nonces, tx) {
        Err(PoolError::DuplicateNonce) => Ok(()),
        other => other,
    }
}

/// The pool and the nonce table after `tx` was offered: a transaction with the
/// expected nonce is scheduled and the expected nonce moves up by one; any other
/// transaction of a known signer is held by its nonce.
pub open spec fn pool_add_model(before: PoolState, tx: Transaction) -> PoolState {
    if pool_add_result(before.nonces, tx) is Err {
        before
    } else {
        let account = tx.signer->0;
        if tx.nonce == before.nonces[account] {
            PoolState {
                scheduled: before.scheduled.push(tx),
                nonces: before.nonces.insert(account, (tx.nonce + 1) as u64),
                ..before
            }
        } else {
            PoolState {
                pending: before.pending.insert(
                    account,
                    held_with(held_of(before.pending, account), tx),
                ),
                ..before
            }
        }
    }
}

impl Pool {
    /// The scheduled transactions, the next to execute first.
    pub closed spec fn scheduled(&self) -> Seq<Transaction> {
        self.scheduled@
    }

    /// The held transactions per sender, in the order of their nonces.
    pub closed spec fn pending(&self) -> Map<Address, Seq<Transaction>> {
        Map::new(|a: Address| self.pending@.contains_key(a), |a: Address| self.pending@[a]@)
    }

    /// No sender has two lists of held transactions.
    pub closed spec fn wf(&self) -> bool {
        self.pending.wf()
    }

    /// The pool together with a nonce table, as plain values.
    pub open spec fn state(&self, nonces: Map<Address, u64>) -> PoolState {
        PoolState { scheduled: self.scheduled(), pending: self.pending(), nonces }
    }

    /// A pool without transactions.
    pub fn new() -> (pool: Pool)
        ensures
            pool.wf(),
            pool.scheduled() == Seq::<Transaction>::empty(),
            pool.pending() == Map::<Address, Seq<Transaction>>::empty(),
    {
        let pool = Pool { scheduled: VecDeque::new(), pending: AssocList::new() };
        assert(pool.pending() =~= Map::<Address, Seq<Transaction>>::empty());
        pool
    }

    /// Offers `tx` to the pool. Left out is a transaction that carries the expected
    /// nonce `u64::MAX`: no nonce can follow it.
    pub fn add(&mut self, nonces: &mut Nonces, tx: Transaction) -> (added: Result<(), PoolError>)
        requires
            old(nonces).wf(),
            old(self).wf(),
            pool_add_result(old(nonces)@, tx) is Ok && tx.nonce == old(nonces)@[tx.signer->0]
                ==> tx.nonce < u64::MAX,
        ensures
            final(nonces).wf(),
            final(self).wf(),
            added == pool_add_result(old(nonces)@, tx),
            final(self).state(final(nonces)@) == pool_add_model(old(self).state(old(nonces)@), tx),
    {
        let account = match tx.signer {
            Some(account) => account,
            None => {
                return Err(PoolError::BadSignature);
            },
        };
        let ghost before = self.state(nonces@);
        let expected = match nonces.get(&account) {
            Some(expected) => expected,
            None => {
                return Err(PoolError::UnknownNonce);
            },
        };
        if expected == tx.nonce {
            match nonces.get_mut(&account) {
                Some(slot) => {
                    *slot = expected + 1;
                },
                None => {},
            }
            self.scheduled.push_back(tx);
            Ok(())
        } else {
            let taken = self.pending.remove(&account);
            let mut held: Vec<Transaction> = match taken {
                Some(held) => held,
                None => Vec::new(),
            };
            crate::tx_pool::insert_by_nonce(&mut held, tx);
            self.pending.insert(account, held);
            assert(self.pending() =~= pool_add_model(before, tx).pending);
            Ok(())
        }
    }
}

impl Default for Pool {
    fn default() -> (pool: Pool)
        ensures
            pool.wf(),
            pool.scheduled() == Seq::<Transaction>::empty(),
            pool.pending() == Map::<Address, Seq<Transaction>>::empty(),
    {
        Pool::new()
    }
}

} // verus!
