//! The nonce-ordered transaction pool.
//!
//! A transaction whose nonce is the sender's expected next nonce is scheduled at once,
//! and with it every held transaction of that sender that now follows without a gap.
//! A transaction that is ahead of the expected nonce is held back, per sender, in the
//! order of its nonce.

use crate::assoc::{AssocList, Entry};
use crate::nonces::Nonces;
use crate::primitives::Address;
use crate::transaction::Transaction;
use std::collections::VecDeque;
use vstd::prelude::*;

verus! {

/// Why the pool did not take a transaction.
#[derive(Clone, Copy, Debug, PartialEq, Eq, Structural)]
pub enum PoolError {
    /// The signer could not be recovered from the signature.
    BadSignature,
    /// The signer has no entry in the nonce table.
    UnknownNonce,
    /// The nonce is below the signer's expected next nonce.
    DuplicateNonce,
}

impl PoolError {
    /// The reason in words.
    pub fn message(&self) -> (text: &'static str)
        ensures
            text@ == (match *self {
                PoolError::BadSignature => "couldn't recover signer"@,
                PoolError::UnknownNonce => "nonce unknown for the address"@,
                PoolError::DuplicateNonce => "duplicate nonce"@,
            }),
    {
        match self {
            PoolError::BadSignature => "couldn't recover signer",
            PoolError::UnknownNonce => "nonce unknown for the address",
            PoolError::DuplicateNonce => "duplicate nonce",
        }
    }
}

/// Whether the transactions of `account` in `queue` carry consecutive nonces, in queue
/// order, the last of them the nonce just below `end`.
pub open spec fn ends_at(queue: Seq<Transaction>, account: Address, end: int) -> bool
    decreases queue.len(),
{
    if queue.len() == 0 {
        true
    } else if queue.last().signer == Some(account) {
        queue.last().nonce == end - 1 && ends_at(queue.drop_last(), account, end - 1)
    } else {
        ends_at(queue.drop_last(), account, end)
    }
}

/// The nonces of the transactions of `account` in `queue`, in queue order.
pub open spec fn account_nonces(queue: Seq<Transaction>, account: Address) -> Seq<int>
    decreases queue.len(),
{
    if queue.len() == 0 {
        Seq::empty()
    } else if queue.last().signer == Some(account) {
        account_nonces(queue.drop_last(), account).push(queue.last().nonce as int)
    } else {
        account_nonces(queue.drop_last(), account)
    }
}

/// `count` consecutive numbers, the first of them `first`.
pub open spec fn consecutive(first: int, count: nat) -> Seq<int> {
    Seq::new(count, |i: int| first + i)
}

/// Whether `held` is in the order of its nonces, smallest first.
pub open spec fn sorted_by_nonce(held: Seq<Transaction>) -> bool {
    forall|i: int, j: int| 0 <= i < j < held.len() ==> held[i].nonce <= held[j].nonce
}

/// Where a transaction with the nonce `nonce` goes into `held`: behind every
/// transaction at the front whose nonce is not larger.
pub open spec fn insert_position(held: Seq<Transaction>, nonce: u64) -> nat
    decreases held.len(),
{
    if held.len() == 0 || held[0].nonce > nonce {
        0
    } else {
        1 + insert_position(held.skip(1), nonce)
    }
}

/// `held` with `tx` put in by its nonce.
pub open spec fn held_with(held: Seq<Transaction>, tx: Transaction) -> Seq<Transaction> {
    held.insert(insert_position(held, tx.nonce) as int, tx)
}

/// How many transactions at the front of `held` follow without a gap, the first of
/// them carrying the nonce `expected`.
pub open spec fn promoted_len(held: Seq<Transaction>, expected: int) -> nat
    decreases held.len(),
{
    if held.len() > 0 && held[0].nonce == expected {
        1 + promoted_len(held.skip(1), expected + 1)
    } else {
        0
    }
}

/// What each sender's held transactions look like.
pub open spec fn held_well_formed(account: Address, held: Seq<Transaction>, expected: u64) -> bool {
    &&& held.len() > 0
    &&& sorted_by_nonce(held)
    &&& forall|i: int|
        0 <= i < held.len() ==> (#[trigger] held[i]).signer == Some(account) && held[i].nonce
            < u64::MAX
    &&& held[0].nonce != expected
}

/// The pool: the queue of transactions that are ready to execute, and per sender the
/// transactions that wait for an earlier nonce.
pub struct TxPool {
    scheduled: VecDeque<Transaction>,
    pending: AssocList<Address, Vec<Transaction>>,
}

/// The total number of transactions in the value lists of `entries`.
pub open spec fn total_held(entries: Seq<Entry<Address, Vec<Transaction>>>) -> nat
    decreases entries.len(),
{
    if entries.len() == 0 {
        0
    } else {
        total_held(entries.drop_last()) + entries.last().value@.len()
    }
}

/// A prefix of the entries holds no more transactions than all of them.
pub proof fn lemma_total_held_prefix(entries: Seq<Entry<Address, Vec<Transaction>>>, n: int)
    requires
        0 <= n <= entries.len(),
    ensures
        total_held(entries.take(n)) <= total_held(entries),
    decreases entries.len(),
{
    if n == entries.len() {
        assert(entries.take(n) =~= entries);
    } else {
        assert(entries.drop_last().take(n) =~= entries.take(n));
        lemma_total_held_prefix(entries.drop_last(), n);
    }
}

/// The transactions of `account` in `queue.skip(1)` still carry consecutive nonces
/// that end just below `end`.
pub proof fn lemma_ends_at_skip(queue: Seq<Transaction>, account: Address, end: int)
    requires
        ends_at(queue, account, end),
        queue.len() > 0,
    ensures
        ends_at(queue.skip(1), account, end),
    decreases queue.len(),
{
    let rest = queue.skip(1);
    if rest.len() > 0 {
        assert(rest.last() == queue.last());
        assert(rest.drop_last() =~= queue.drop_last().skip(1));
        if queue.last().signer == Some(account) {
            lemma_ends_at_skip(queue.drop_last(), account, end - 1);
        } else {
            lemma_ends_at_skip(queue.drop_last(), account, end);
        }
    }
}

/// A queue without a transaction of `account` meets `ends_at` for every `end`.
pub proof fn lemma_ends_at_absent(queue: Seq<Transaction>, account: Address, end: int)
    requires
        forall|i: int| 0 <= i < queue.len() ==> (#[trigger] queue[i]).signer != Some(account),
    ensures
        ends_at(queue, account, end),
    decreases queue.len(),
{
    if queue.len() > 0 {
        assert(queue[queue.len() - 1].signer != Some(account));
        assert forall|i: int| 0 <= i < queue.drop_last().len() implies (
        #[trigger] queue.drop_last()[i]).signer != Some(account) by {
            assert(queue.drop_last()[i] == queue[i]);
        }
        lemma_ends_at_absent(queue.drop_last(), account, end);
    }
}

/// The pool's ordering: the nonces of an account's scheduled transactions,
/// in queue order, are consecutive numbers, and the last is the one just below the
/// account's expected next nonce.
pub proof fn lemma_account_nonces_consecutive(queue: Seq<Transaction>, account: Address, end: int)
    requires
        ends_at(queue, account, end),
    ensures
        account_nonces(queue, account) == consecutive(
            end - account_nonces(queue, account).len(),
            account_nonces(queue, account).len(),
        ),
    decreases queue.len(),
{
    let nonces = account_nonces(queue, account);
    if queue.len() == 0 {
        assert(nonces =~= consecutive(end - nonces.len(), nonces.len()));
    } else if queue.last().signer == Some(account) {
        lemma_account_nonces_consecutive(queue.drop_last(), account, end - 1);
        assert(nonces =~= consecutive(end - nonces.len(), nonces.len()));
    } else {
        lemma_account_nonces_consecutive(queue.drop_last(), account, end);
    }
}

/// The pool and the nonce table as plain values: what `TxPool::add` reads and writes.
pub struct PoolState {
    /// The scheduled transactions, the next to execute first.
    pub scheduled: Seq<Transaction>,
    /// The held transactions per sender, in the order of their nonces.
    pub pending: Map<Address, Seq<Transaction>>,
    /// The expected next nonce per account.
    pub nonces: Map<Address, u64>,
}

/// The held transactions of `account`, none where the account has no entry.
pub open spec fn held_of(pending: Map<Address, Seq<Transaction>>, account: Address) -> Seq<
    Transaction,
> {
    if pending.contains_key(account) {
        pending[account]
    } else {
        Seq::empty()
    }
}

/// Whether the pool takes `tx`, and why not.
pub open spec fn add_result(nonces: Map<Address, u64>, tx: Transaction) -> Result<(), PoolError> {
    match tx.signer {
        None => Err(PoolError::BadSignature),
        Some(account) => if !nonces.contains_key(account) {
            Err(PoolError::UnknownNonce)
        } else if tx.nonce < nonces[account] {
            Err(PoolError::DuplicateNonce)
        } else {
            Ok(())
        },
    }
}

/// The pool and the nonce table after `tx` was offered.
///
/// A refused transaction changes nothing. One that carries the expected nonce is
/// scheduled, followed by the held transactions of its sender that continue without a
/// gap; the expected nonce moves behind the last of them, and a sender with nothing left
/// held loses its entry. One that is ahead of the expected nonce is held by its nonce.
pub open spec fn add_model(before: PoolState, tx: Transaction) -> PoolState {
    if add_result(before.nonces, tx) is Err {
        before
    } else {
        let account = tx.signer->0;
        let expected = before.nonces[account];
        let held = held_of(before.pending, account);
        if tx.nonce == expected {
            let count = promoted_len(held, expected + 1);
            PoolState {
                scheduled: before.scheduled.push(tx) + held.take(count as int),
                pending: if count == held.len() {
                    before.pending.remove(account)
                } else {
                    before.pending.insert(account, held.skip(count as int))
                },
                nonces: before.nonces.insert(account, (expected + 1 + count) as u64),
            }
        } else {
            PoolState {
                scheduled: before.scheduled,
                pending: before.pending.insert(account, held_with(held, tx)),
                nonces: before.nonces,
            }
        }
    }
}

/// The invariant of the pool and the nonce table: every scheduled transaction has a
/// signer that the table knows; each account's scheduled transactions carry consecutive
/// nonces that end just below the account's expected next nonce; and each sender's held
/// transactions are its own, sorted by nonce, and do not start at the expected nonce.
pub open spec fn state_wf(state: PoolState) -> bool {
    &&& forall|i: int|
        0 <= i < state.scheduled.len() ==> (#[trigger] state.scheduled[i]).signer is Some
            && state.nonces.contains_key(state.scheduled[i].signer->0)
    &&& forall|a: Address|
        state.nonces.contains_key(a) ==> ends_at(state.scheduled, a, #[trigger] state.nonces[a] as int)
    &&& forall|a: Address| #[trigger]
        state.pending.contains_key(a) ==> state.nonces.contains_key(a) && held_well_formed(
            a,
            state.pending[a],
            state.nonces[a],
        )
}

/// The transactions at the front of `held` that `promoted_len` counts carry the
/// nonces from `expected` on, and the one behind them does not continue the run.
pub proof fn lemma_promoted_prefix(held: Seq<Transaction>, expected: int)
    ensures
        promoted_len(held, expected) <= held.len(),
        forall|i: int|
            0 <= i < promoted_len(held, expected) ==> (#[trigger] held[i]).nonce == expected + i,
        promoted_len(held, expected) < held.len() ==> held[promoted_len(held, expected) as int].nonce
            != expected + promoted_len(held, expected),
    decreases held.len(),
{
    if held.len() > 0 && held[0].nonce == expected {
        let rest = held.skip(1);
        lemma_promoted_prefix(rest, expected + 1);
        let count = promoted_len(held, expected);
        assert forall|i: int| 0 <= i < count implies (#[trigger] held[i]).nonce == expected + i by {
            if i > 0 {
                assert(rest[i - 1] == held[i]);
            }
        }
        if count < held.len() {
            assert(rest[count - 1] == held[count as int]);
        }
    }
}

/// Appending a run of an account's transactions whose nonces count up from `end` moves
/// the end behind the run.
pub proof fn lemma_ends_at_append_run(
    queue: Seq<Transaction>,
    run: Seq<Transaction>,
    account: Address,
    end: int,
)
    requires
        ends_at(queue, account, end),
        forall|i: int|
            0 <= i < run.len() ==> (#[trigger] run[i]).signer == Some(account) && run[i].nonce == end
                + i,
    ensures
        ends_at(queue + run, account, end + run.len()),
    decreases run.len(),
{
    if run.len() == 0 {
        assert(queue + run =~= queue);
    } else {
        let shorter = run.drop_last();
        assert forall|i: int| 0 <= i < shorter.len() implies (#[trigger] shorter[i]).signer == Some(
            account,
        ) && shorter[i].nonce == end + i by {
            assert(shorter[i] == run[i]);
        }
        lemma_ends_at_append_run(queue, shorter, account, end);
        assert((queue + run).drop_last() =~= queue + shorter);
        assert((queue + run).last() == run[run.len() - 1]);
    }
}

/// Appending transactions of other senders leaves an account's end where it was.
pub proof fn lemma_ends_at_append_other(
    queue: Seq<Transaction>,
    run: Seq<Transaction>,
    account: Address,
    end: int,
)
    requires
        ends_at(queue, account, end),
        forall|i: int| 0 <= i < run.len() ==> (#[trigger] run[i]).signer != Some(account),
    ensures
        ends_at(queue + run, account, end),
    decreases run.len(),
{
    if run.len() == 0 {
        assert(queue + run =~= queue);
    } else {
        let shorter = run.drop_last();
        assert forall|i: int| 0 <= i < shorter.len() implies (#[trigger] shorter[i]).signer != Some(
            account,
        ) by {
            assert(shorter[i] == run[i]);
        }
        lemma_ends_at_append_other(queue, shorter, account, end);
        assert((queue + run).drop_last() =~= queue + shorter);
        assert((queue + run).last() == run[run.len() - 1]);
    }
}

/// Where `insert_position` puts a nonce: behind the transactions that are not larger
/// and before one that is.
pub proof fn lemma_insert_position(held: Seq<Transaction>, nonce: u64)
    ensures
        insert_position(held, nonce) <= held.len(),
        forall|i: int| 0 <= i < insert_position(held, nonce) ==> (#[trigger] held[i]).nonce <= nonce,
        insert_position(held, nonce) < held.len() ==> held[insert_position(held, nonce) as int].nonce
            > nonce,
    decreases held.len(),
{
    if !(held.len() == 0 || held[0].nonce > nonce) {
        let rest = held.skip(1);
        lemma_insert_position(rest, nonce);
        let position = insert_position(held, nonce);
        assert forall|i: int| 0 <= i < position implies (#[trigger] held[i]).nonce <= nonce by {
            if i > 0 {
                assert(rest[i - 1] == held[i]);
            }
        }
        if position < held.len() {
            assert(rest[position - 1] == held[position as int]);
        }
    }
}

/// A sorted list stays sorted when a transaction is put in by its nonce.
pub proof fn lemma_held_with_sorted(held: Seq<Transaction>, tx: Transaction)
    requires
        sorted_by_nonce(held),
    ensures
        sorted_by_nonce(held_with(held, tx)),
{
    lemma_insert_position(held, tx.nonce);
    let position = insert_position(held, tx.nonce) as int;
    let after = held.insert(position, tx);
    assert forall|i: int, j: int| 0 <= i < j < after.len() implies after[i].nonce
        <= after[j].nonce by {
        if j == position {
            assert(after[i] == held[i]);
        } else if i == position {
            assert(after[j] == held[j - 1]);
            assert(held[position].nonce <= held[j - 1].nonce);
        } else {
            let i0 = if i < position { i } else { i - 1 };
            let j0 = if j < position { j } else { j - 1 };
            assert(after[i] == held[i0]);
            assert(after[j] == held[j0]);
        }
    }
}

/// `TxPool::add` keeps the invariant, and the expected nonce that it writes fits.
pub proof fn lemma_add_keeps_invariant(before: PoolState, tx: Transaction)
    requires
        state_wf(before),
        tx.nonce < u64::MAX,
    ensures
        state_wf(add_model(before, tx)),
        add_result(before.nonces, tx) is Ok && tx.nonce == before.nonces[tx.signer->0] ==> tx.nonce
            + 1 + promoted_len(held_of(before.pending, tx.signer->0), tx.nonce + 1) <= u64::MAX,
{
    let after = add_model(before, tx);
    if add_result(before.nonces, tx) is Ok {
        let account = tx.signer->0;
        let expected = before.nonces[account];
        let held = held_of(before.pending, account);
        if before.pending.contains_key(account) {
            assert(held_well_formed(account, held, expected));
        }
        if tx.nonce == expected {
            let count = promoted_len(held, expected + 1);
            lemma_promoted_prefix(held, expected + 1);
            let run = seq![tx] + held.take(count as int);
            assert(before.scheduled.push(tx) + held.take(count as int) =~= before.scheduled + run);
            if count > 0 {
                assert(held[count - 1].nonce == expected + count);
            }
            assert forall|i: int| 0 <= i < run.len() implies (#[trigger] run[i]).signer == Some(
                account,
            ) && run[i].nonce == expected + i by {
                if i > 0 {
                    assert(run[i] == held[i - 1]);
                }
            }
            assert forall|i: int| 0 <= i < after.scheduled.len() implies (
            #[trigger] after.scheduled[i]).signer is Some && after.nonces.contains_key(
                after.scheduled[i].signer->0,
            ) by {
                if i >= before.scheduled.len() {
                    assert(after.scheduled[i] == run[i - before.scheduled.len()]);
                } else {
                    assert(after.scheduled[i] == before.scheduled[i]);
                }
            }
            assert forall|a: Address| after.nonces.contains_key(a) implies ends_at(
                after.scheduled,
                a,
                #[trigger] after.nonces[a] as int,
            ) by {
                if a == account {
                    lemma_ends_at_append_run(before.scheduled, run, account, expected as int);
                } else {
                    assert(before.nonces.contains_key(a));
                    lemma_ends_at_append_other(before.scheduled, run, a, before.nonces[a] as int);
                }
            }
            assert forall|a: Address| #[trigger] after.pending.contains_key(a) implies after.nonces.contains_key(
                a,
            ) && held_well_formed(a, after.pending[a], after.nonces[a]) by {
                if a == account {
                    let rest = held.skip(count as int);
                    assert(rest[0] == held[count as int]);
                    assert forall|i: int, j: int| 0 <= i < j < rest.len() implies rest[i].nonce
                        <= rest[j].nonce by {
                        assert(rest[i] == held[count + i]);
                        assert(rest[j] == held[count + j]);
                    }
                    assert forall|i: int| 0 <= i < rest.len() implies (
                    #[trigger] rest[i]).signer == Some(account) && rest[i].nonce < u64::MAX by {
                        assert(rest[i] == held[count + i]);
                    }
                } else {
                    assert(before.pending.contains_key(a));
                }
            }
        } else {
            lemma_insert_position(held, tx.nonce);
            let position = insert_position(held, tx.nonce) as int;
            let inserted = held_with(held, tx);
            assert(sorted_by_nonce(inserted)) by {
                if held.len() > 0 {
                    lemma_held_with_sorted(held, tx);
                }
            }
            assert forall|i: int| 0 <= i < inserted.len() implies (
            #[trigger] inserted[i]).signer == Some(account) && inserted[i].nonce < u64::MAX by {
                if i < position {
                    assert(inserted[i] == held[i]);
                } else if i > position {
                    assert(inserted[i] == held[i - 1]);
                }
            }
            assert(inserted[0].nonce != expected) by {
                if position > 0 {
                    assert(inserted[0] == held[0]);
                }
            }
            assert forall|a: Address| #[trigger] after.pending.contains_key(a) implies after.nonces.contains_key(
                a,
            ) && held_well_formed(a, after.pending[a], after.nonces[a]) by {
                if a != account {
                    assert(before.pending.contains_key(a));
                }
            }
        }
    }
}

/// Removing the first scheduled transaction keeps the invariant.
pub proof fn lemma_pop_keeps_invariant(before: PoolState)
    requires
        state_wf(before),
        before.scheduled.len() > 0,
    ensures
        state_wf(
            PoolState {
                scheduled: before.scheduled.skip(1),
                pending: before.pending,
                nonces: before.nonces,
            },
        ),
{
    let rest = before.scheduled.skip(1);
    assert forall|i: int| 0 <= i < rest.len() implies (#[trigger] rest[i]).signer is Some
        && before.nonces.contains_key(rest[i].signer->0) by {
        assert(rest[i] == before.scheduled[i + 1]);
    }
    assert forall|a: Address| before.nonces.contains_key(a) implies ends_at(
        rest,
        a,
        #[trigger] before.nonces[a] as int,
    ) by {
        lemma_ends_at_skip(before.scheduled, a, before.nonces[a] as int);
    }
}

/// Giving an account without an entry its first expected nonce keeps the invariant.
pub proof fn lemma_new_account_keeps_invariant(before: PoolState, account: Address, nonce: u64)
    requires
        state_wf(before),
        !before.nonces.contains_key(account),
    ensures
        state_wf(
            PoolState {
                scheduled: before.scheduled,
                pending: before.pending,
                nonces: before.nonces.insert(account, nonce),
            },
        ),
{
    let after = before.nonces.insert(account, nonce);
    assert forall|a: Address| after.contains_key(a) implies ends_at(
        before.scheduled,
        a,
        #[trigger] after[a] as int,
    ) by {
        if a == account {
            lemma_ends_at_absent(before.scheduled, account, nonce as int);
        } else {
            assert(ends_at(before.scheduled, a, before.nonces[a] as int));
        }
    }
    assert forall|a: Address| #[trigger] before.pending.contains_key(a) implies after.contains_key(a)
        && held_well_formed(a, before.pending[a], after[a]) by {
        assert(before.nonces.contains_key(a));
    }
}

/// The pool and the nonce table after the transactions of `txs` were offered in order.
pub open spec fn add_all(state: PoolState, txs: Seq<Transaction>) -> PoolState
    decreases txs.len(),
{
    if txs.len() == 0 {
        state
    } else {
        add_model(add_all(state, txs.drop_last()), txs.last())
    }
}

/// Appending transactions that are all of `account` adds as many nonces to the
/// account's scheduled nonces; appending transactions of other senders adds none.
pub proof fn lemma_account_nonces_append(queue: Seq<Transaction>, run: Seq<Transaction>, account: Address)
    ensures
        (forall|i: int| 0 <= i < run.len() ==> (#[trigger] run[i]).signer == Some(account))
            ==> account_nonces(queue + run, account).len() == account_nonces(queue, account).len()
            + run.len(),
        (forall|i: int| 0 <= i < run.len() ==> (#[trigger] run[i]).signer != Some(account))
            ==> account_nonces(queue + run, account) == account_nonces(queue, account),
    decreases run.len(),
{
    if run.len() == 0 {
        assert(queue + run =~= queue);
    } else {
        let shorter = run.drop_last();
        lemma_account_nonces_append(queue, shorter, account);
        assert((queue + run).drop_last() =~= queue + shorter);
        assert((queue + run).last() == run[run.len() - 1]);
        assert forall|i: int| 0 <= i < shorter.len() implies #[trigger] shorter[i] == run[i] by {}
        if forall|i: int| 0 <= i < run.len() ==> (#[trigger] run[i]).signer == Some(account) {
            assert forall|i: int| 0 <= i < shorter.len() implies (#[trigger] shorter[i]).signer == Some(
                account,
            ) by {
                assert(shorter[i] == run[i]);
            }
        }
        if forall|i: int| 0 <= i < run.len() ==> (#[trigger] run[i]).signer != Some(account) {
            assert forall|i: int| 0 <= i < shorter.len() implies (#[trigger] shorter[i]).signer != Some(
                account,
            ) by {
                assert(shorter[i] == run[i]);
            }
        }
    }
}

/// Whatever is offered to a pool whose queue is empty, in whatever order: the nonces
/// of an account's scheduled transactions are, in queue order, the account's first
/// expected nonce and the numbers that follow it, without a gap.
pub proof fn lemma_scheduled_from_first_nonce(
    initial: PoolState,
    txs: Seq<Transaction>,
    account: Address,
)
    requires
        state_wf(initial),
        initial.scheduled.len() == 0,
        initial.nonces.contains_key(account),
        forall|i: int| 0 <= i < txs.len() ==> (#[trigger] txs[i]).nonce < u64::MAX,
    ensures
        state_wf(add_all(initial, txs)),
        add_all(initial, txs).nonces.contains_key(account),
        add_all(initial, txs).nonces[account] == initial.nonces[account] + account_nonces(
            add_all(initial, txs).scheduled,
            account,
        ).len(),
        account_nonces(add_all(initial, txs).scheduled, account) == consecutive(
            initial.nonces[account] as int,
            account_nonces(add_all(initial, txs).scheduled, account).len(),
        ),
    decreases txs.len(),
{
    let last_state = add_all(initial, txs);
    if txs.len() > 0 {
        let earlier = txs.drop_last();
        let tx = txs.last();
        assert forall|i: int| 0 <= i < earlier.len() implies (#[trigger] earlier[i]).nonce
            < u64::MAX by {
            assert(earlier[i] == txs[i]);
        }
        lemma_scheduled_from_first_nonce(initial, earlier, account);
        let before = add_all(initial, earlier);
        assert(tx == txs[txs.len() - 1]);
        lemma_add_keeps_invariant(before, tx);
        if add_result(before.nonces, tx) is Ok {
            let sender = tx.signer->0;
            let expected = before.nonces[sender];
            let held = held_of(before.pending, sender);
            if tx.nonce == expected {
                let count = promoted_len(held, expected + 1);
                lemma_promoted_prefix(held, expected + 1);
                let run = seq![tx] + held.take(count as int);
                assert(before.scheduled.push(tx) + held.take(count as int) =~= before.scheduled
                    + run);
                if before.pending.contains_key(sender) {
                    assert(held_well_formed(sender, held, expected));
                }
                assert forall|i: int| 0 <= i < run.len() implies (#[trigger] run[i]).signer == Some(
                    sender,
                ) by {
                    if i > 0 {
                        assert(run[i] == held[i - 1]);
                    }
                }
                lemma_account_nonces_append(before.scheduled, run, account);
            }
        }
    }
    lemma_account_nonces_consecutive(
        last_state.scheduled,
        account,
        last_state.nonces[account] as int,
    );
}

/// Takes the run of transactions at the front of `held` whose nonces count up from
/// `expected` out of `held`, and hands it back.
fn take_run(held: &mut Vec<Transaction>, expected: u64) -> (run: Vec<Transaction>)
    requires
        forall|i: int| 0 <= i < old(held)@.len() ==> (#[trigger] old(held)@[i]).nonce < u64::MAX,
    ensures
        run@ == old(held)@.take(promoted_len(old(held)@, expected as int) as int),
        final(held)@ == old(held)@.skip(promoted_len(old(held)@, expected as int) as int),
{
    let ghost held_before = held@;
    let mut count: usize = 0;
    let mut next: u64 = expected;
    proof {
        assert(held_before.skip(0) =~= held_before);
    }
    while count < held.len() && held[count].nonce == next
        invariant
            count <= held@.len(),
            held@ == held_before,
            next == expected + count,
            promoted_len(held_before, expected as int) == count + promoted_len(
                held_before.skip(count as int),
                next as int,
            ),
            forall|i: int| 0 <= i < held_before.len() ==> (#[trigger] held_before[i]).nonce < u64::MAX,
        decreases held@.len() - count,
    {
        proof {
            lemma_promoted_step(held_before, next as int, count as int);
        }
        count += 1;
        next = next + 1;
    }
    proof {
        if count < held@.len() {
            assert(held_before.skip(count as int)[0] == held_before[count as int]);
        }
        assert(promoted_len(held_before, expected as int) == count);
    }
    let mut run = held.split_off(count);
    core::mem::swap(held, &mut run);
    proof {
        assert(run@ =~= held_before.take(count as int));
        assert(held@ =~= held_before.skip(count as int));
    }
    run
}

/// Appends `run` to `queue`, keeping its order.
fn append_all(queue: &mut VecDeque<Transaction>, run: Vec<Transaction>)
    ensures
        final(queue)@ == old(queue)@ + run@,
{
    let mut i: usize = 0;
    proof {
        assert(queue@ =~= old(queue)@ + run@.take(0));
    }
    while i < run.len()
        invariant
            i <= run@.len(),
            queue@ == old(queue)@ + run@.take(i as int),
        decreases run@.len() - i,
    {
        queue.push_back(run[i]);
        proof {
            assert(run@.take(i + 1) =~= run@.take(i as int).push(run@[i as int]));
            assert(queue@ =~= old(queue)@ + run@.take(i + 1));
        }
        i += 1;
    }
    assert(run@.take(run@.len() as int) =~= run@);
}

/// Puts `tx` into `held` by its nonce.
pub(crate) fn insert_by_nonce(held: &mut Vec<Transaction>, tx: Transaction)
    ensures
        final(held)@ == held_with(old(held)@, tx),
{
    let mut position: usize = 0;
    proof {
        assert(held@.skip(0) =~= held@);
    }
    while position < held.len() && held[position].nonce <= tx.nonce
        invariant
            position <= held@.len(),
            held@ == old(held)@,
            insert_position(held@, tx.nonce) == position + insert_position(
                held@.skip(position as int),
                tx.nonce,
            ),
        decreases held@.len() - position,
    {
        proof {
            lemma_insert_position_step(held@, tx.nonce, position as int);
        }
        position += 1;
    }
    proof {
        if position < held@.len() {
            assert(held@.skip(position as int)[0] == held@[position as int]);
        }
    }
    held.insert(position, tx);
}

proof fn lemma_insert_position_step(held: Seq<Transaction>, nonce: u64, position: int)
    requires
        0 <= position < held.len(),
        held[position].nonce <= nonce,
    ensures
        insert_position(held.skip(position), nonce) == 1 + insert_position(
            held.skip(position + 1),
            nonce,
        ),
{
    assert(held.skip(position)[0] == held[position]);
    assert(held.skip(position).skip(1) =~= held.skip(position + 1));
}

proof fn lemma_promoted_step(held: Seq<Transaction>, expected: int, count: int)
    requires
        0 <= count < held.len(),
        held[count].nonce == expected,
    ensures
        promoted_len(held.skip(count), expected) == 1 + promoted_len(
            held.skip(count + 1),
            expected + 1,
        ),
{
    assert(held.skip(count)[0] == held[count]);
    assert(held.skip(count).skip(1) =~= held.skip(count + 1));
}

impl TxPool {
    /// The scheduled transactions, the next to execute first.
    pub closed spec fn scheduled(&self) -> Seq<Transaction> {
        self.scheduled@
    }

    /// The held transactions per sender, in the order of their nonces.
    pub closed spec fn pending(&self) -> Map<Address, Seq<Transaction>> {
        Map::new(|a: Address| self.pending@.contains_key(a), |a: Address| self.pending@[a]@)
    }

    /// The number of held transactions, over all senders.
    pub closed spec fn pending_total(&self) -> nat {
        total_held(self.pending.entries())
    }

    /// No sender has two lists of held transactions.
    pub closed spec fn distinct_senders(&self) -> bool {
        self.pending.wf()
    }

    /// The pool together with a nonce table, as plain values.
    pub open spec fn state(&self, nonces: Map<Address, u64>) -> PoolState {
        PoolState { scheduled: self.scheduled(), pending: self.pending(), nonces }
    }

    /// The pool's invariant against the nonce table `nonces`.
    pub open spec fn wf(&self, nonces: Map<Address, u64>) -> bool {
        self.distinct_senders() && state_wf(self.state(nonces))
    }

    /// The nonces of an account's scheduled transactions count up by one, and the
    /// last is the one just below the account's expected next nonce.
    pub proof fn lemma_scheduled_nonces(&self, nonces: Map<Address, u64>, account: Address)
        requires
            self.wf(nonces),
            nonces.contains_key(account),
        ensures
            account_nonces(self.scheduled(), account) == consecutive(
                nonces[account] - account_nonces(self.scheduled(), account).len(),
                account_nonces(self.scheduled(), account).len(),
            ),
    {
        lemma_account_nonces_consecutive(self.scheduled(), account, nonces[account] as int);
    }

    /// A pool without transactions.
    pub fn new() -> (pool: TxPool)
        ensures
            pool.scheduled() == Seq::<Transaction>::empty(),
            pool.pending() == Map::<Address, Seq<Transaction>>::empty(),
            pool.pending_total() == 0,
            pool.distinct_senders(),
            forall|nonces: Map<Address, u64>| #[trigger] pool.wf(nonces),
    {
        let pool = TxPool { scheduled: VecDeque::new(), pending: AssocList::new() };
        assert(pool.pending() =~= Map::<Address, Seq<Transaction>>::empty());
        assert forall|nonces: Map<Address, u64>| #[trigger] pool.wf(nonces) by {
            assert forall|a: Address| nonces.contains_key(a) implies ends_at(
                pool.scheduled@,
                a,
                #[trigger] nonces[a] as int,
            ) by {}
        }
        pool
    }

    /// The number of scheduled transactions.
    pub fn scheduled_count(&self) -> (count: usize)
        ensures
            count == self.scheduled().len(),
    {
        self.scheduled.len()
    }

    /// Offers `tx` to the pool.
    ///
    /// The signer must be recoverable and have an entry in `nonces`, and the nonce must
    /// not lie below the expected one; otherwise the transaction is refused and nothing
    /// changes. The nonce `u64::MAX` is left out: no nonce can follow it.
    pub fn add(&mut self, nonces: &mut Nonces, tx: Transaction) -> (added: Result<(), PoolError>)
        requires
            old(nonces).wf(),
            old(self).wf(old(nonces)@),
            tx.nonce < u64::MAX,
        ensures
            final(nonces).wf(),
            final(self).wf(final(nonces)@),
            added == add_result(old(nonces)@, tx),
            final(self).state(final(nonces)@) == add_model(old(self).state(old(nonces)@), tx),
    {
        let account = match tx.signer {
            Some(account) => account,
            None => {
                return Err(PoolError::BadSignature);
            },
        };
        let expected = match nonces.get(&account) {
            Some(expected) => expected,
            None => {
                return Err(PoolError::UnknownNonce);
            },
        };
        if tx.nonce < expected {
            return Err(PoolError::DuplicateNonce);
        }
        let ghost before = self.state(nonces@);
        let ghost held_before = held_of(before.pending, account);
        proof {
            lemma_add_keeps_invariant(before, tx);
            if before.pending.contains_key(account) {
                assert(held_well_formed(account, held_before, expected));
            }
        }
        let taken = self.pending.remove(&account);
        let mut held: Vec<Transaction> = match taken {
            Some(held) => held,
            None => Vec::new(),
        };
        assert(held@ == held_before);
        if tx.nonce == expected {
            self.scheduled.push_back(tx);
            proof {
                lemma_promoted_prefix(held_before, expected + 1);
            }
            let run = take_run(&mut held, expected + 1);
            let count = run.len();
            assert(count == promoted_len(held_before, expected + 1));
            append_all(&mut self.scheduled, run);
            if held.len() > 0 {
                self.pending.insert(account, held);
            }
            let next: u64 = expected + 1 + (count as u64);
            match nonces.get_mut(&account) {
                Some(slot) => {
                    *slot = next;
                },
                None => {},
            }
            proof {
                let after = add_model(before, tx);
                assert(nonces@ == after.nonces);
                assert(self.scheduled() == after.scheduled);
                assert(self.pending() =~= after.pending);
            }
            Ok(())
        } else {
            insert_by_nonce(&mut held, tx);
            self.pending.insert(account, held);
            proof {
                let after = add_model(before, tx);
                assert(self.pending() =~= after.pending);
            }
            Ok(())
        }
    }

    /// Takes the first scheduled transaction off the queue, if there is one.
    pub fn scheduled_pop(&mut self) -> (next: Option<Transaction>)
        ensures
            next == (if old(self).scheduled().len() > 0 {
                Some(old(self).scheduled()[0])
            } else {
                None
            }),
            final(self).scheduled() == (if old(self).scheduled().len() > 0 {
                old(self).scheduled().skip(1)
            } else {
                old(self).scheduled()
            }),
            final(self).pending() == old(self).pending(),
            final(self).pending_total() == old(self).pending_total(),
            final(self).distinct_senders() == old(self).distinct_senders(),
            forall|nonces: Map<Address, u64>|
                old(self).wf(nonces) ==> #[trigger] final(self).wf(nonces),
    {
        let next = self.scheduled.pop_front();
        proof {
            if next is Some {
                assert(self.scheduled@ =~= old(self).scheduled@.skip(1));
                assert forall|nonces: Map<Address, u64>| old(self).wf(nonces) implies #[trigger]
                    self.wf(nonces) by {
                    lemma_pop_keeps_invariant(old(self).state(nonces));
                }
            }
        }
        next
    }

    /// Takes every scheduled transaction off the queue, in the order in which they
    /// were scheduled.
    pub fn scheduled_drain(&mut self) -> (drained: Vec<Transaction>)
        ensures
            drained@ == old(self).scheduled(),
            final(self).scheduled() == Seq::<Transaction>::empty(),
            final(self).pending() == old(self).pending(),
            final(self).pending_total() == old(self).pending_total(),
            final(self).distinct_senders() == old(self).distinct_senders(),
            forall|nonces: Map<Address, u64>|
                old(self).wf(nonces) ==> #[trigger] final(self).wf(nonces),
    {
        let mut drained: Vec<Transaction> = Vec::new();
        loop
            invariant
                drained@ + self.scheduled() == old(self).scheduled(),
                self.pending() == old(self).pending(),
                self.pending_total() == old(self).pending_total(),
                self.distinct_senders() == old(self).distinct_senders(),
                forall|nonces: Map<Address, u64>| old(self).wf(nonces) ==> #[trigger] self.wf(nonces),
            ensures
                self.scheduled().len() == 0,
            decreases self.scheduled().len(),
        {
            let ghost queue = self.scheduled();
            let ghost taken = drained@;
            match self.scheduled_pop() {
                Some(tx) => {
                    drained.push(tx);
                    assert(drained@ + self.scheduled() =~= taken + queue);
                },
                None => {
                    break ;
                },
            }
        }
        assert(drained@ =~= drained@ + self.scheduled());
        assert(self.scheduled() =~= Seq::<Transaction>::empty());
        drained
    }

    /// The number of held transactions, over all senders.
    pub fn pending_count(&self) -> (count: usize)
        requires
            self.pending_total() <= usize::MAX,
        ensures
            count == self.pending_total(),
    {
        let mut count: usize = 0;
        let mut i: usize = 0;
        let n = self.pending.len();
        while i < n
            invariant
                n == self.pending.entries().len(),
                i <= n,
                count == total_held(self.pending.entries().take(i as int)),
                total_held(self.pending.entries()) <= usize::MAX,
            decreases n - i,
        {
            let entry = self.pending.entry(i);
            proof {
                let entries = self.pending.entries();
                assert(entries.take(i + 1).drop_last() =~= entries.take(i as int));
                assert(entries.take(i + 1).last() == entries[i as int]);
                lemma_total_held_prefix(entries, i + 1);
            }
            count = count + entry.value.len();
            i += 1;
        }
        assert(self.pending.entries().take(n as int) =~= self.pending.entries());
        count
    }
}

impl Default for TxPool {
    fn default() -> (pool: TxPool)
        ensures
            pool.scheduled() == Seq::<Transaction>::empty(),
            pool.pending() == Map::<Address, Seq<Transaction>>::empty(),
            pool.pending_total() == 0,
            pool.distinct_senders(),
            forall|nonces: Map<Address, u64>| #[trigger] pool.wf(nonces),
    {
        TxPool::new()
    }
}

} // verus!
