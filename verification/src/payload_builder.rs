//! The payload builder: a block under construction.
//!
//! Transactions are executed one by one by the EVM, which lives outside this crate.
//! The builder decides what has to be asked of it, and what its answer does to the
//! block: which transactions are refused, which are skipped, and what a receipt, the
//! gas total and the fee total look like after each one.

use crate::attributes::RedstonePayloadBuilderAttributes;
use crate::block::{empty_ommer_root, empty_ommer_root_hash, Bloom, Header, SealedBlock, BEACON_NONCE};
use crate::built_payload::RedstoneBuiltPayload;
use crate::chain::{blob_fields, next_blob_fields, BlockEnv, ChainSpec, Hardfork, ParentBlock};
use crate::primitives::{Address, B256};
use crate::transaction::{Log, Receipt, Transaction, Withdrawal};
use crate::u256::{pow2_256, product_u128_u64, wrapping_sum, U256};
use vstd::prelude::*;

verus! {

/// Why a payload could not be built, or a transaction not be taken.
#[derive(Clone, Copy, Debug)]
pub enum PayloadBuilderError {
    /// The state at the parent block, the call of the beacon root contract, the
    /// withdrawals or the state root failed.
    Internal,
    /// The create2 deployer could not be deployed.
    ForceCreate2DeployerFail,
    /// A blob transaction was offered to a sequencer block.
    BlobTransactionRejected,
    /// The signer of a transaction could not be recovered.
    TransactionEcRecoverFailed,
    /// The account of a depositor could not be loaded.
    AccountLoadFailed(Address),
    /// The EVM failed on something other than the transaction itself.
    EvmExecutionError,
    /// The block to build on is not known.
    MissingParentBlock(B256),
}

impl PayloadBuilderError {
    /// The reason in words.
    pub fn message(&self) -> (text: &'static str)
        ensures
            text@ == (match *self {
                PayloadBuilderError::Internal => "internal error"@,
                PayloadBuilderError::ForceCreate2DeployerFail => "failed to force create2deployer deployment"@,
                PayloadBuilderError::BlobTransactionRejected => "blob transaction included in sequencer block"@,
                PayloadBuilderError::TransactionEcRecoverFailed => "failed to convert deposit transaction to TransactionSignedEcRecovered"@,
                PayloadBuilderError::AccountLoadFailed(_) => "failed to load account"@,
                PayloadBuilderError::EvmExecutionError => "evm execution error"@,
                PayloadBuilderError::MissingParentBlock(_) => "missing parent block"@,
            }),
    {
        match self {
            PayloadBuilderError::Internal => "internal error",
            PayloadBuilderError::ForceCreate2DeployerFail => "failed to force create2deployer deployment",
            PayloadBuilderError::BlobTransactionRejected => "blob transaction included in sequencer block",
            PayloadBuilderError::TransactionEcRecoverFailed => "failed to convert deposit transaction to TransactionSignedEcRecovered",
            PayloadBuilderError::AccountLoadFailed(_) => "failed to load account",
            PayloadBuilderError::EvmExecutionError => "evm execution error",
            PayloadBuilderError::MissingParentBlock(_) => "missing parent block",
        }
    }
}

/// How the work before the first transaction of a block ended: opening the state at
/// the parent block, the call of the beacon root contract, and the deployment of the
/// create2 deployer where the fork schedule asks for it.
#[derive(Clone, Copy, Debug, PartialEq, Eq, Structural)]
pub enum PreBlock {
    /// The state at the parent block could not be opened.
    StateUnavailable,
    /// The call of the beacon root contract failed.
    BeaconRootCallFailed,
    /// The create2 deployer could not be deployed.
    Create2DeployerFailed,
    /// All of it was done and committed.
    Committed,
}

/// What the EVM is asked to do for a transaction.
#[derive(Clone, Copy, Debug)]
pub struct ExecutionRequest {
    /// The sender of the transaction.
    pub signer: Address,
    /// Whether the sender's account has to be read before the transaction runs, for
    /// the nonce in the receipt of a deposit.
    pub load_depositor: bool,
}

/// What a transaction did when it ran.
#[derive(Debug)]
pub struct Execution {
    pub gas_used: u64,
    /// Whether the transaction succeeded.
    pub success: bool,
    pub logs: Vec<Log>,
    /// The nonce of the sender's account before the transaction ran. It is read only
    /// where the request asked for the account.
    pub depositor_nonce: u64,
    /// What the transaction pays per gas above the block's base fee, or `None` where
    /// its fee cap is below the base fee.
    pub effective_tip: Option<u128>,
}

/// How the EVM answered for a transaction.
#[derive(Debug)]
pub enum ExecutionOutcome {
    /// The account of the depositor could not be loaded.
    AccountLoadFailed,
    /// The EVM refused the transaction itself: it does not enter the block.
    InvalidTransaction,
    /// The EVM failed on something else.
    Fatal,
    /// The transaction ran.
    Executed(Execution),
}

/// One payload under construction.
pub struct RedstonePayloadBuilder {
    pub attributes: RedstonePayloadBuilderAttributes,
    pub chain_spec: ChainSpec,
    pub block_env: BlockEnv,
    /// The gas that the transactions of the block have used so far.
    pub cumulative_gas_used: u64,
    /// The fees that the transactions of the block pay to the block's producer.
    pub total_fees: U256,
    pub parent_block: ParentBlock,
    /// The executed transactions, in the order of the block.
    pub transactions: Vec<Transaction>,
    /// The receipt of each executed transaction, in the same order.
    pub receipts: Vec<Receipt>,
    pub extra_data: Vec<u8>,
}

/// The error that ends the work before the first transaction, if there is one.
pub open spec fn pre_block_error(pre_block: PreBlock) -> Option<PayloadBuilderError> {
    match pre_block {
        PreBlock::StateUnavailable => Some(PayloadBuilderError::Internal),
        PreBlock::BeaconRootCallFailed => Some(PayloadBuilderError::Internal),
        PreBlock::Create2DeployerFailed => Some(PayloadBuilderError::ForceCreate2DeployerFail),
        PreBlock::Committed => None,
    }
}

/// Why `tx` is refused before it is handed to the EVM, if it is.
pub open spec fn refused_before(tx: Transaction) -> Option<PayloadBuilderError> {
    if tx.is_blob() {
        Some(PayloadBuilderError::BlobTransactionRejected)
    } else if tx.signer is None {
        Some(PayloadBuilderError::TransactionEcRecoverFailed)
    } else {
        None
    }
}

/// Why processing `tx` fails, if it does: it is refused before execution, or the
/// depositor's account could not be loaded, or the EVM failed on something other than
/// the transaction.
pub open spec fn failure(tx: Transaction, outcome: ExecutionOutcome) -> Option<PayloadBuilderError> {
    if refused_before(tx) is Some {
        refused_before(tx)
    } else {
        match outcome {
            ExecutionOutcome::AccountLoadFailed => Some(
                PayloadBuilderError::AccountLoadFailed(tx.signer->0),
            ),
            ExecutionOutcome::Fatal => Some(PayloadBuilderError::EvmExecutionError),
            _ => None,
        }
    }
}

/// Why `tx` is refused before it is handed to the EVM, if it is.
pub fn refused(tx: &Transaction) -> (refusal: Option<PayloadBuilderError>)
    ensures
        refusal == refused_before(*tx),
{
    if tx.is_blob() {
        Some(PayloadBuilderError::BlobTransactionRejected)
    } else if tx.signer.is_none() {
        Some(PayloadBuilderError::TransactionEcRecoverFailed)
    } else {
        None
    }
}

/// Whether the depositor's account is read before `tx` runs in a block with the
/// timestamp `timestamp`: for a deposit, from Regolith on.
pub fn depositor_needed(chain_spec: &ChainSpec, timestamp: u64, tx: &Transaction) -> (needed: bool)
    ensures
        needed == (chain_spec.fork_active(Hardfork::Regolith, timestamp) && tx.is_deposit()),
{
    chain_spec.is_fork_active_at_timestamp(Hardfork::Regolith, timestamp) && tx.is_deposit()
}

/// Whether a strict run ends with this outcome of a transaction that was not refused.
pub fn ends_run(outcome: &ExecutionOutcome) -> (ends: bool)
    ensures
        ends == (outcome is AccountLoadFailed || outcome is Fatal),
{
    match outcome {
        ExecutionOutcome::AccountLoadFailed => true,
        ExecutionOutcome::Fatal => true,
        _ => false,
    }
}

/// Whether the receipts carry cumulative gas totals that never decrease.
pub open spec fn gas_non_decreasing(receipts: Seq<Receipt>) -> bool {
    forall|i: int, j: int|
        0 <= i <= j < receipts.len() ==> receipts[i].cumulative_gas_used
            <= receipts[j].cumulative_gas_used
}

/// A builder as plain values, with the fee total as a number.
pub struct BuilderState {
    pub attributes: RedstonePayloadBuilderAttributes,
    pub chain_spec: ChainSpec,
    pub block_env: BlockEnv,
    pub parent_block: ParentBlock,
    pub extra_data: Seq<u8>,
    pub cumulative_gas_used: u64,
    pub total_fees: int,
    pub transactions: Seq<Transaction>,
    pub receipts: Seq<Receipt>,
}

impl BuilderState {
    /// Whether the depositor's account is read before `tx` runs: for a deposit, from
    /// Regolith on.
    pub open spec fn asks_depositor(self, tx: Transaction) -> bool {
        self.chain_spec.fork_active(Hardfork::Regolith, self.attributes.timestamp)
            && tx.is_deposit()
    }

    /// The receipt of `tx` after `execution`: the cumulative gas includes the
    /// transaction; the depositor's nonce is there where it was read; deposit receipts
    /// are of version 1 from Canyon on.
    pub open spec fn receipt_for(self, tx: Transaction, execution: Execution) -> Receipt {
        Receipt {
            tx_type: tx.tx_type,
            success: execution.success,
            cumulative_gas_used: (self.cumulative_gas_used + execution.gas_used) as u64,
            logs: execution.logs,
            deposit_nonce: if self.asks_depositor(tx) {
                Some(execution.depositor_nonce)
            } else {
                None
            },
            deposit_receipt_version: if self.chain_spec.fork_active(
                Hardfork::Canyon,
                self.attributes.timestamp,
            ) {
                Some(1u64)
            } else {
                None
            },
        }
    }

    /// The fee total after `execution`: unchanged where fees are skipped, else larger
    /// by the tip per gas times the gas used, wrapping round at 2^256.
    pub open spec fn fees_after(self, skip_fees: bool, execution: Execution) -> int {
        if skip_fees {
            self.total_fees
        } else {
            (self.total_fees + execution.effective_tip->0 * execution.gas_used) % pow2_256()
        }
    }

    /// Whether a transaction with this outcome can be taken: the gas total stays within
    /// `u64`, and a transaction that ran and pays fees has a tip.
    pub open spec fn can_take(self, tx: Transaction, skip_fees: bool, outcome: ExecutionOutcome) -> bool {
        failure(tx, outcome) is None ==> (outcome matches ExecutionOutcome::Executed(execution)
            ==> self.cumulative_gas_used + execution.gas_used <= u64::MAX && (!skip_fees
            ==> execution.effective_tip is Some))
    }

    /// The builder after `tx` was processed with `outcome`. A transaction that fails or
    /// is skipped changes nothing. One that ran is appended with its receipt; its gas is
    /// added to the total and, unless fees are skipped, its tip to the fees.
    pub open spec fn step(self, tx: Transaction, skip_fees: bool, outcome: ExecutionOutcome) -> BuilderState {
        if failure(tx, outcome) is Some {
            self
        } else {
            match outcome {
                ExecutionOutcome::Executed(execution) => BuilderState {
                    cumulative_gas_used: (self.cumulative_gas_used + execution.gas_used) as u64,
                    total_fees: self.fees_after(skip_fees, execution),
                    transactions: self.transactions.push(tx),
                    receipts: self.receipts.push(self.receipt_for(tx, execution)),
                    ..self
                },
                _ => self,
            }
        }
    }

    /// Whether `payload` is what a builder in this state seals to with `parts`: it
    /// carries the builder's identifier, transactions, fees, chain and attributes, the
    /// withdrawals of `parts`, no ommers and no sidecars, and the header that
    /// `header_of` describes.
    pub open spec fn seals_to(self, parts: SealedParts, payload: RedstoneBuiltPayload) -> bool {
        &&& payload.id == self.attributes.id
        &&& header_of(self, parts, payload.block.header)
        &&& payload.block.body@ == self.transactions
        &&& payload.block.ommers@.len() == 0
        &&& payload.block.withdrawals == parts.withdrawals
        &&& payload.fees.value() == self.total_fees
        &&& payload.sidecars@.len() == 0
        &&& payload.chain_spec == self.chain_spec
        &&& payload.attributes == self.attributes
    }

    /// The builder's invariant: every transaction has its receipt; the receipts'
    /// cumulative gas never decreases and ends at the builder's total, which is zero
    /// without receipts; no transaction is a blob transaction and each has a signer;
    /// and the header of the block can be computed.
    pub open spec fn wf(self) -> bool {
        &&& self.receipts.len() == self.transactions.len()
        &&& gas_non_decreasing(self.receipts)
        &&& self.cumulative_gas_used == (if self.receipts.len() > 0 {
            self.receipts.last().cumulative_gas_used
        } else {
            0
        })
        &&& forall|i: int|
            0 <= i < self.transactions.len() ==> !(#[trigger] self.transactions[i]).is_blob()
                && self.transactions[i].signer is Some
        &&& buildable(self.chain_spec, self.attributes.timestamp, self.parent_block)
    }
}

/// Whether the header of a block on `parent` can be computed: the block number after
/// the parent's exists, and where Cancun is active in both blocks the parent's blob gas
/// fields can be added up.
pub open spec fn buildable(chain_spec: ChainSpec, timestamp: u64, parent: ParentBlock) -> bool {
    &&& parent.number < u64::MAX
    &&& chain_spec.cancun_active(timestamp) && chain_spec.cancun_active(parent.timestamp)
        ==> crate::chain::blob_gas_fits(parent)
}

/// Processing a transaction keeps the builder's invariant. After a transaction that
/// ran there is one more transaction and one more receipt, and the gas total is the
/// cumulative gas of the last receipt.
pub proof fn lemma_step_keeps_invariant(
    before: BuilderState,
    tx: Transaction,
    skip_fees: bool,
    outcome: ExecutionOutcome,
)
    requires
        before.wf(),
        before.can_take(tx, skip_fees, outcome),
    ensures
        before.step(tx, skip_fees, outcome).wf(),
        failure(tx, outcome) is None && outcome is Executed ==> {
            let after = before.step(tx, skip_fees, outcome);
            &&& after.receipts.len() == before.receipts.len() + 1
            &&& after.transactions.len() == before.transactions.len() + 1
            &&& after.cumulative_gas_used == after.receipts.last().cumulative_gas_used
            &&& after.cumulative_gas_used >= before.cumulative_gas_used
        },
        !(failure(tx, outcome) is None && outcome is Executed) ==> before.step(
            tx,
            skip_fees,
            outcome,
        ) == before,
{
    let after = before.step(tx, skip_fees, outcome);
    if failure(tx, outcome) is None && outcome is Executed {
        let receipts = after.receipts;
        assert forall|i: int, j: int| 0 <= i <= j < receipts.len() implies receipts[i].cumulative_gas_used
            <= receipts[j].cumulative_gas_used by {
            if j < receipts.len() - 1 {
                assert(receipts[i] == before.receipts[i]);
                assert(receipts[j] == before.receipts[j]);
            } else if i < receipts.len() - 1 {
                assert(receipts[i] == before.receipts[i]);
                assert(before.receipts[i].cumulative_gas_used
                    <= before.receipts.last().cumulative_gas_used);
            }
        }
        assert forall|i: int| 0 <= i < after.transactions.len() implies !(
        #[trigger] after.transactions[i]).is_blob() && after.transactions[i].signer is Some by {
            if i < after.transactions.len() - 1 {
                assert(after.transactions[i] == before.transactions[i]);
            }
        }
    }
}

/// The transactions `txs`, each with the outcome at the same place in `outcomes`.
pub open spec fn paired(txs: Seq<Transaction>, outcomes: Seq<ExecutionOutcome>) -> Seq<
    (Transaction, ExecutionOutcome),
> {
    Seq::new(txs.len(), |i: int| (txs[i], outcomes[i]))
}

/// The builder after the transactions of `executed` were processed in order, and the
/// failure that ended the run, if one did. A `lenient` run goes on after a failure,
/// which changes nothing; a strict one ends at the first.
pub open spec fn run(
    state: BuilderState,
    skip_fees: bool,
    lenient: bool,
    executed: Seq<(Transaction, ExecutionOutcome)>,
) -> (BuilderState, Option<PayloadBuilderError>)
    decreases executed.len(),
{
    if executed.len() == 0 {
        (state, None)
    } else {
        let (before, failed) = run(state, skip_fees, lenient, executed.drop_last());
        if failed is Some {
            (before, failed)
        } else {
            let (tx, outcome) = executed.last();
            (
                before.step(tx, skip_fees, outcome),
                if lenient {
                    None
                } else {
                    failure(tx, outcome)
                },
            )
        }
    }
}

/// Whether every transaction of `executed` that the run reaches can be taken.
pub open spec fn can_run(
    state: BuilderState,
    skip_fees: bool,
    lenient: bool,
    executed: Seq<(Transaction, ExecutionOutcome)>,
) -> bool
    decreases executed.len(),
{
    if executed.len() == 0 {
        true
    } else {
        let (before, failed) = run(state, skip_fees, lenient, executed.drop_last());
        can_run(state, skip_fees, lenient, executed.drop_last()) && (failed is None
            ==> before.can_take(executed.last().0, skip_fees, executed.last().1))
    }
}

/// A run keeps the builder's invariant, and a part of a run that can be made can be
/// made too.
pub proof fn lemma_run(
    state: BuilderState,
    skip_fees: bool,
    lenient: bool,
    executed: Seq<(Transaction, ExecutionOutcome)>,
    n: int,
)
    requires
        state.wf(),
        can_run(state, skip_fees, lenient, executed),
        0 <= n <= executed.len(),
    ensures
        can_run(state, skip_fees, lenient, executed.take(n)),
        run(state, skip_fees, lenient, executed.take(n)).0.wf(),
        run(state, skip_fees, lenient, executed.take(n)).0.receipts.len() == run(
            state,
            skip_fees,
            lenient,
            executed.take(n),
        ).0.transactions.len(),
    decreases executed.len(),
{
    if n == executed.len() {
        assert(executed.take(n) =~= executed);
        if n > 0 {
            lemma_run(state, skip_fees, lenient, executed.drop_last(), n - 1);
            assert(executed.drop_last().take(n - 1) =~= executed.drop_last());
            let (before, failed) = run(state, skip_fees, lenient, executed.drop_last());
            if failed is None {
                lemma_step_keeps_invariant(before, executed.last().0, skip_fees, executed.last().1);
            }
        }
    } else {
        assert(executed.drop_last().take(n) =~= executed.take(n));
        lemma_run(state, skip_fees, lenient, executed.drop_last(), n);
    }
}

/// A strict run that has failed stays as it is, whatever follows.
pub proof fn lemma_run_ends(
    state: BuilderState,
    skip_fees: bool,
    lenient: bool,
    executed: Seq<(Transaction, ExecutionOutcome)>,
    n: int,
)
    requires
        0 <= n <= executed.len(),
        run(state, skip_fees, lenient, executed.take(n)).1 is Some,
    ensures
        run(state, skip_fees, lenient, executed) == run(state, skip_fees, lenient, executed.take(n)),
    decreases executed.len(),
{
    if n == executed.len() {
        assert(executed.take(n) =~= executed);
    } else {
        assert(executed.drop_last().take(n) =~= executed.take(n));
        lemma_run_ends(state, skip_fees, lenient, executed.drop_last(), n);
    }
}

/// A run only appends: the transactions and receipts that the builder held before are
/// still the first ones, in their order.
pub proof fn lemma_run_keeps_prefix(
    state: BuilderState,
    skip_fees: bool,
    lenient: bool,
    executed: Seq<(Transaction, ExecutionOutcome)>,
)
    ensures
        state.transactions.is_prefix_of(run(state, skip_fees, lenient, executed).0.transactions),
        state.receipts.is_prefix_of(run(state, skip_fees, lenient, executed).0.receipts),
    decreases executed.len(),
{
    if executed.len() > 0 {
        lemma_run_keeps_prefix(state, skip_fees, lenient, executed.drop_last());
        let (before, failed) = run(state, skip_fees, lenient, executed.drop_last());
        let after = run(state, skip_fees, lenient, executed).0;
        assert(before.transactions.is_prefix_of(after.transactions));
        assert(before.receipts.is_prefix_of(after.receipts));
    }
}

/// After a run in which every transaction ran, the builder holds one more
/// transaction and one more receipt for each of them, the receipts' cumulative gas
/// never decreases, and the builder's gas total is that of the last receipt.
pub proof fn lemma_successful_run(
    state: BuilderState,
    skip_fees: bool,
    lenient: bool,
    executed: Seq<(Transaction, ExecutionOutcome)>,
)
    requires
        state.wf(),
        can_run(state, skip_fees, lenient, executed),
        forall|i: int|
            0 <= i < executed.len() ==> failure((#[trigger] executed[i]).0, executed[i].1) is None
                && executed[i].1 is Executed,
    ensures
        run(state, skip_fees, lenient, executed).1 is None,
        run(state, skip_fees, lenient, executed).0.wf(),
        run(state, skip_fees, lenient, executed).0.receipts.len() == state.receipts.len()
            + executed.len(),
        run(state, skip_fees, lenient, executed).0.transactions.len() == state.transactions.len()
            + executed.len(),
        gas_non_decreasing(run(state, skip_fees, lenient, executed).0.receipts),
        executed.len() > 0 ==> run(state, skip_fees, lenient, executed).0.cumulative_gas_used
            == run(state, skip_fees, lenient, executed).0.receipts.last().cumulative_gas_used,
    decreases executed.len(),
{
    if executed.len() > 0 {
        let earlier = executed.drop_last();
        assert forall|i: int| 0 <= i < earlier.len() implies failure(
            (#[trigger] earlier[i]).0,
            earlier[i].1,
        ) is None && earlier[i].1 is Executed by {
            assert(earlier[i] == executed[i]);
        }
        lemma_successful_run(state, skip_fees, lenient, earlier);
        let (before, failed) = run(state, skip_fees, lenient, earlier);
        let (tx, outcome) = executed.last();
        assert(executed.last() == executed[executed.len() - 1]);
        lemma_step_keeps_invariant(before, tx, skip_fees, outcome);
    }
}

/// The roots and the bloom of a finished block, computed over its state,
/// transactions and receipts.
#[derive(Clone, Copy, Debug)]
pub struct BlockRoots {
    pub state_root: B256,
    pub transactions_root: B256,
    pub receipts_root: B256,
    pub logs_bloom: Bloom,
}

/// What sealing a block needs from the state: the withdrawals as they were
/// committed, with their root, and the roots of the block.
#[derive(Debug)]
pub struct SealedParts {
    pub withdrawals: Option<Vec<Withdrawal>>,
    pub withdrawals_root: Option<B256>,
    pub roots: BlockRoots,
}

/// How the work on the state at the end of a block ended.
#[derive(Debug)]
pub enum Sealing {
    /// The withdrawals could not be committed.
    WithdrawalsFailed,
    /// The state root could not be computed.
    StateRootFailed,
    /// Withdrawals and roots are there.
    Computed(SealedParts),
}

/// A run over two lists, one after the other, is the run over the second from where
/// the run over the first ended, unless that one failed.
pub proof fn lemma_run_concat(
    state: BuilderState,
    skip_fees: bool,
    lenient: bool,
    first: Seq<(Transaction, ExecutionOutcome)>,
    second: Seq<(Transaction, ExecutionOutcome)>,
)
    ensures
        run(state, skip_fees, lenient, first + second) == (if run(
            state,
            skip_fees,
            lenient,
            first,
        ).1 is Some {
            run(state, skip_fees, lenient, first)
        } else {
            run(run(state, skip_fees, lenient, first).0, skip_fees, lenient, second)
        }),
        can_run(state, skip_fees, lenient, first + second) == (can_run(
            state,
            skip_fees,
            lenient,
            first,
        ) && (run(state, skip_fees, lenient, first).1 is None ==> can_run(
            run(state, skip_fees, lenient, first).0,
            skip_fees,
            lenient,
            second,
        ))),
    decreases second.len(),
{
    if second.len() == 0 {
        assert(first + second =~= first);
    } else {
        lemma_run_concat(state, skip_fees, lenient, first, second.drop_last());
        assert((first + second).drop_last() =~= first + second.drop_last());
        assert((first + second).last() == second.last());
    }
}

/// The state of a builder that has just been started: no transaction, no gas used,
/// no fee earned.
pub open spec fn start_state(
    attributes: RedstonePayloadBuilderAttributes,
    chain_spec: ChainSpec,
    block_env: BlockEnv,
    parent_block: ParentBlock,
    extra_data: Seq<u8>,
) -> BuilderState {
    BuilderState {
        attributes,
        chain_spec,
        block_env,
        parent_block,
        extra_data,
        cumulative_gas_used: 0,
        total_fees: 0,
        transactions: Seq::empty(),
        receipts: Seq::empty(),
    }
}

/// The state of a builder that has just been started from `config`.
pub open spec fn initial_state(config: PayloadConfig) -> BuilderState {
    start_state(
        config.attributes,
        config.chain_spec,
        config.initialized_block_env,
        config.parent_block,
        config.extra_data@,
    )
}

/// Whether `header` is the header of the block that a builder in the state `state`
/// seals with `parts`: the parent's hash and the number after the parent's; no ommers;
/// the beneficiary and the base fee of the block environment; the roots, the bloom and
/// the withdrawals root as computed; the timestamp, randao and beacon root of the
/// attributes; the gas limit of the environment, capped at `u64::MAX`; no difficulty;
/// the blob gas fields that follow from the parent; the gas that the transactions used;
/// and the builder's extra data.
pub open spec fn header_of(state: BuilderState, parts: SealedParts, header: Header) -> bool {
    let blob = blob_fields(
        state.chain_spec.cancun_active(state.attributes.timestamp),
        state.chain_spec.cancun_active(state.parent_block.timestamp),
        state.parent_block,
    );
    &&& header.parent_hash == state.parent_block.hash
    &&& header.ommers_hash == empty_ommer_root()
    &&& header.beneficiary == state.block_env.coinbase
    &&& header.state_root == parts.roots.state_root
    &&& header.transactions_root == parts.roots.transactions_root
    &&& header.receipts_root == parts.roots.receipts_root
    &&& header.withdrawals_root == parts.withdrawals_root
    &&& header.logs_bloom == parts.roots.logs_bloom
    &&& header.difficulty == U256::spec_zero()
    &&& header.number == state.parent_block.number + 1
    &&& header.gas_limit == state.block_env.gas_limit.saturated()
    &&& header.gas_used == state.cumulative_gas_used
    &&& header.timestamp == state.attributes.timestamp
    &&& header.mix_hash == state.attributes.prev_randao
    &&& header.nonce == BEACON_NONCE
    &&& header.base_fee_per_gas == Some(state.block_env.basefee)
    &&& header.blob_gas_used == blob.1
    &&& header.excess_blob_gas == blob.0
    &&& header.parent_beacon_block_root == state.attributes.parent_beacon_block_root
    &&& header.extra_data@ == state.extra_data
}

/// A payload that is sealed right after the builder was started has used no gas,
/// holds no transaction and earns no fee; its roots are those that were computed over
/// no transactions and no receipts.
pub proof fn lemma_fresh_payload(
    attributes: RedstonePayloadBuilderAttributes,
    chain_spec: ChainSpec,
    block_env: BlockEnv,
    parent_block: ParentBlock,
    extra_data: Seq<u8>,
    parts: SealedParts,
    payload: RedstoneBuiltPayload,
)
    requires
        start_state(attributes, chain_spec, block_env, parent_block, extra_data).seals_to(
            parts,
            payload,
        ),
    ensures
        payload.block.header.gas_used == 0,
        payload.block.body@.len() == 0,
        payload.fees.value() == 0,
        payload.block.header.transactions_root == parts.roots.transactions_root,
        payload.block.header.receipts_root == parts.roots.receipts_root,
{
}

/// What a payload is built from: the block to build on, the environment of the new
/// block, the attributes, the chain and the extra data of the header.
#[derive(Debug)]
pub struct PayloadConfig {
    pub initialized_block_env: BlockEnv,
    pub parent_block: ParentBlock,
    pub attributes: RedstonePayloadBuilderAttributes,
    pub chain_spec: ChainSpec,
    pub extra_data: Vec<u8>,
}

/// A copy of `txs`.
pub fn copy_transactions(txs: &Vec<Transaction>) -> (copy: Vec<Transaction>)
    ensures
        copy@ == txs@,
{
    let mut copy: Vec<Transaction> = Vec::new();
    let mut i: usize = 0;
    while i < txs.len()
        invariant
            i <= txs@.len(),
            copy@ == txs@.take(i as int),
        decreases txs@.len() - i,
    {
        copy.push(txs[i]);
        assert(txs@.take(i + 1) =~= txs@.take(i as int).push(txs@[i as int]));
        i += 1;
    }
    assert(txs@.take(txs@.len() as int) =~= txs@);
    copy
}

/// The transactions of a whole build with their outcomes: those that the attributes
/// force into the block first, then the others.
pub open spec fn build_inputs(
    config: PayloadConfig,
    forced: Seq<ExecutionOutcome>,
    transactions: Seq<Transaction>,
    outcomes: Seq<ExecutionOutcome>,
) -> Seq<(Transaction, ExecutionOutcome)> {
    paired(config.attributes.transactions@, forced) + paired(transactions, outcomes)
}

/// Builds a payload in one go.
///
/// The work before the first transaction must have succeeded. Then the transactions
/// that the attributes force into the block are processed, with the outcomes `forced`,
/// and after them `transactions` with `outcomes`; none of them pays fees. The first
/// failure ends the build; a transaction that the EVM refused as invalid is skipped.
/// At the end the block is sealed as `RedstonePayloadBuilder::into_payload` does.
pub fn build_payload<S: FnOnce(&Header) -> B256>(
    config: PayloadConfig,
    pre_block: PreBlock,
    forced: Vec<ExecutionOutcome>,
    transactions: Vec<Transaction>,
    outcomes: Vec<ExecutionOutcome>,
    sealing: Sealing,
    seal: S,
) -> (built: Result<RedstoneBuiltPayload, PayloadBuilderError>)
    requires
        buildable(config.chain_spec, config.attributes.timestamp, config.parent_block),
        forced@.len() == config.attributes.transactions@.len(),
        transactions@.len() == outcomes@.len(),
        pre_block_error(pre_block) is None ==> can_run(
            initial_state(config),
            true,
            false,
            build_inputs(config, forced@, transactions@, outcomes@),
        ),
        forall|header: Header| call_requires(seal, (&header,)),
    ensures
        pre_block_error(pre_block) matches Some(error) ==> built == Err::<
            RedstoneBuiltPayload,
            PayloadBuilderError,
        >(error),
        pre_block_error(pre_block) is None ==> ({
            let (state, failed) = run(
                initial_state(config),
                true,
                false,
                build_inputs(config, forced@, transactions@, outcomes@),
            );
            &&& failed matches Some(error) ==> built == Err::<
                RedstoneBuiltPayload,
                PayloadBuilderError,
            >(error)
            &&& failed is None && !(sealing is Computed) ==> built == Err::<
                RedstoneBuiltPayload,
                PayloadBuilderError,
            >(PayloadBuilderError::Internal)
            &&& failed is None ==> (sealing matches Sealing::Computed(parts) ==> (built matches Ok(
                payload,
            ) && state.seals_to(parts, payload) && call_ensures(
                seal,
                (&payload.block.header,),
                payload.block.hash,
            )))
        }),
{
    let ghost start = initial_state(config);
    let ghost first = paired(config.attributes.transactions@, forced@);
    let ghost second = paired(transactions@, outcomes@);
    let PayloadConfig { initialized_block_env, parent_block, attributes, chain_spec, extra_data } =
        config;
    let forced_transactions = copy_transactions(&attributes.transactions);
    let mut builder = match RedstonePayloadBuilder::init(
        attributes,
        chain_spec,
        parent_block,
        initialized_block_env,
        extra_data,
        pre_block,
    ) {
        Ok(builder) => builder,
        Err(error) => {
            return Err(error);
        },
    };
    proof {
        assert(builder@ == start);
        lemma_run_concat(start, true, false, first, second);
    }
    match builder.process_each(&forced_transactions, forced, true, false) {
        Ok(_) => {},
        Err(error) => {
            return Err(error);
        },
    }
    match builder.process_each(&transactions, outcomes, true, false) {
        Ok(_) => {},
        Err(error) => {
            return Err(error);
        },
    }
    builder.into_payload(sealing, seal)
}

impl View for RedstonePayloadBuilder {
    type V = BuilderState;

    open spec fn view(&self) -> BuilderState {
        BuilderState {
            attributes: self.attributes,
            chain_spec: self.chain_spec,
            block_env: self.block_env,
            parent_block: self.parent_block,
            extra_data: self.extra_data@,
            cumulative_gas_used: self.cumulative_gas_used,
            total_fees: self.total_fees.value(),
            transactions: self.transactions@,
            receipts: self.receipts@,
        }
    }
}

impl RedstonePayloadBuilder {
    /// The builder's invariant.
    pub open spec fn wf(&self) -> bool {
        self@.wf()
    }

    /// Starts a payload on `parent_block`. `pre_block` tells how the work before the
    /// first transaction ended; a failure there ends the build. The new builder holds no
    /// transaction, has used no gas and earned no fee.
    pub fn init(
        attributes: RedstonePayloadBuilderAttributes,
        chain_spec: ChainSpec,
        parent_block: ParentBlock,
        block_env: BlockEnv,
        extra_data: Vec<u8>,
        pre_block: PreBlock,
    ) -> (started: Result<RedstonePayloadBuilder, PayloadBuilderError>)
        requires
            buildable(chain_spec, attributes.timestamp, parent_block),
        ensures
            pre_block_error(pre_block) matches Some(error) ==> started == Err::<
                RedstonePayloadBuilder,
                PayloadBuilderError,
            >(error),
            pre_block_error(pre_block) is None ==> (started matches Ok(builder) && builder.wf()
                && builder@ == start_state(
                attributes,
                chain_spec,
                block_env,
                parent_block,
                extra_data@,
            )),
    {
        match pre_block {
            PreBlock::StateUnavailable => Err(PayloadBuilderError::Internal),
            PreBlock::BeaconRootCallFailed => Err(PayloadBuilderError::Internal),
            PreBlock::Create2DeployerFailed => Err(PayloadBuilderError::ForceCreate2DeployerFail),
            PreBlock::Committed => {
                let builder = RedstonePayloadBuilder {
                    attributes,
                    chain_spec,
                    block_env,
                    cumulative_gas_used: 0,
                    total_fees: U256::zero(),
                    parent_block,
                    transactions: Vec::new(),
                    receipts: Vec::new(),
                    extra_data,
                };
                assert(builder@.transactions =~= Seq::<Transaction>::empty());
                assert(builder@.receipts =~= Seq::<Receipt>::empty());
                Ok(builder)
            },
        }
    }

    /// What the EVM has to do for `tx`, or why the transaction is refused before it
    /// gets there: a blob transaction, or one without a recoverable signer.
    pub fn execution_request(&self, tx: &Transaction) -> (request: Result<
        ExecutionRequest,
        PayloadBuilderError,
    >)
        ensures
            refused_before(*tx) matches Some(error) ==> request == Err::<
                ExecutionRequest,
                PayloadBuilderError,
            >(error),
            refused_before(*tx) is None ==> request == Ok::<ExecutionRequest, PayloadBuilderError>(
                ExecutionRequest {
                    signer: tx.signer->0,
                    load_depositor: self@.asks_depositor(*tx),
                },
            ),
    {
        match refused(tx) {
            Some(error) => {
                return Err(error);
            },
            None => {},
        }
        let signer = match tx.signer {
            Some(signer) => signer,
            None => {
                return Err(PayloadBuilderError::TransactionEcRecoverFailed);
            },
        };
        Ok(
            ExecutionRequest {
                signer,
                load_depositor: depositor_needed(&self.chain_spec, self.attributes.timestamp, tx),
            },
        )
    }

    /// Takes `tx` into the block, given how the EVM answered for it.
    ///
    /// A transaction that is refused, and one on which the EVM failed, is an error; a
    /// transaction that the EVM refused as invalid is skipped. Neither changes the
    /// builder. A transaction that ran is appended with its receipt, which is handed
    /// back; its gas is added to the total, and unless `skip_fees` is set its tip is
    /// added to the fees.
    ///
    /// Left out are a gas total beyond `u64::MAX`, and a transaction that ran and pays
    /// fees although its fee cap is below the base fee.
    pub fn process_transaction(
        &mut self,
        tx: Transaction,
        skip_fees: bool,
        outcome: ExecutionOutcome,
    ) -> (processed: Result<Option<&Receipt>, PayloadBuilderError>)
        requires
            old(self).wf(),
            old(self)@.can_take(tx, skip_fees, outcome),
        ensures
            final(self).wf(),
            final(self)@ == old(self)@.step(tx, skip_fees, outcome),
            failure(tx, outcome) matches Some(error) ==> processed == Err::<
                Option<&Receipt>,
                PayloadBuilderError,
            >(error) && *final(self) == *old(self),
            failure(tx, outcome) is None && !(outcome is Executed) ==> processed == Ok::<
                Option<&Receipt>,
                PayloadBuilderError,
            >(None) && *final(self) == *old(self),
            failure(tx, outcome) is None ==> (outcome matches ExecutionOutcome::Executed(execution)
                ==> (processed matches Ok(Some(receipt)) && *receipt == old(self)@.receipt_for(
                tx,
                execution,
            ))),
    {
        proof {
            lemma_step_keeps_invariant(self@, tx, skip_fees, outcome);
        }
        let request = match self.execution_request(&tx) {
            Ok(request) => request,
            Err(error) => {
                return Err(error);
            },
        };
        let execution = match outcome {
            ExecutionOutcome::AccountLoadFailed => {
                return Err(PayloadBuilderError::AccountLoadFailed(request.signer));
            },
            ExecutionOutcome::InvalidTransaction => {
                return Ok(None);
            },
            ExecutionOutcome::Fatal => {
                return Err(PayloadBuilderError::EvmExecutionError);
            },
            ExecutionOutcome::Executed(execution) => execution,
        };
        let ghost expected = self@.receipt_for(tx, execution);
        let gas_used = execution.gas_used;
        self.cumulative_gas_used = self.cumulative_gas_used + gas_used;
        let receipt = Receipt {
            tx_type: tx.tx_type,
            success: execution.success,
            cumulative_gas_used: self.cumulative_gas_used,
            logs: execution.logs,
            deposit_nonce: if request.load_depositor {
                Some(execution.depositor_nonce)
            } else {
                None
            },
            deposit_receipt_version: if self.chain_spec.is_fork_active_at_timestamp(
                Hardfork::Canyon,
                self.attributes.timestamp,
            ) {
                Some(1)
            } else {
                None
            },
        };
        assert(receipt == expected);
        if !skip_fees {
            match execution.effective_tip {
                Some(miner_fee) => {
                    self.total_fees = wrapping_sum(
                        self.total_fees,
                        product_u128_u64(miner_fee, gas_used),
                    );
                },
                None => {},
            }
        }
        self.transactions.push(tx);
        self.receipts.push(receipt);
        let last = self.receipts.len() - 1;
        Ok(Some(&self.receipts[last]))
    }

    /// Processes the transactions of `txs` in order, each with the outcome at the same
    /// place in `outcomes`. A `lenient` run passes over a transaction that fails; a
    /// strict one ends at the first failure and hands it back.
    pub fn process_each(
        &mut self,
        txs: &Vec<Transaction>,
        outcomes: Vec<ExecutionOutcome>,
        skip_fees: bool,
        lenient: bool,
    ) -> (processed: Result<(), PayloadBuilderError>)
        requires
            old(self).wf(),
            txs@.len() == outcomes@.len(),
            can_run(old(self)@, skip_fees, lenient, paired(txs@, outcomes@)),
        ensures
            final(self).wf(),
            final(self)@ == run(old(self)@, skip_fees, lenient, paired(txs@, outcomes@)).0,
            processed == (match run(old(self)@, skip_fees, lenient, paired(txs@, outcomes@)).1 {
                Some(error) => Err::<(), PayloadBuilderError>(error),
                None => Ok::<(), PayloadBuilderError>(()),
            }),
    {
        let ghost start = self@;
        let ghost all = paired(txs@, outcomes@);
        let ghost given = outcomes@;
        proof {
            assert(all.take(0) =~= Seq::<(Transaction, ExecutionOutcome)>::empty());
        }
        let count = txs.len();
        let mut at: usize = 0;
        for outcome in it: outcomes
            invariant
                at == it.index(),
                count == txs@.len(),
                it.seq() == given,
                txs@.len() == given.len(),
                given == outcomes@,
                start == old(self)@,
                all == paired(txs@, given),
                start.wf(),
                can_run(start, skip_fees, lenient, all),
                self.wf(),
                self@ == run(start, skip_fees, lenient, all.take(it.index() as int)).0,
                run(start, skip_fees, lenient, all.take(it.index() as int)).1 is None,
        {
            let ghost i = at as int;
            assert(at < count);
            let tx = txs[at];
            proof {
                let longer = all.take(i + 1);
                assert(longer.drop_last() =~= all.take(i));
                assert(longer.last() == (tx, outcome));
                lemma_run(start, skip_fees, lenient, all, i + 1);
            }
            match self.process_transaction(tx, skip_fees, outcome) {
                Ok(_) => {},
                Err(error) => {
                    if !lenient {
                        proof {
                            lemma_run_ends(start, skip_fees, lenient, all, i + 1);
                        }
                        return Err(error);
                    }
                },
            }
            at += 1;
        }
        assert(all.take(txs@.len() as int) =~= all);
        Ok(())
    }

    /// The transaction at `index` of the block with its receipt.
    pub fn transaction_with_receipt(&self, index: usize) -> (pair: (&Transaction, &Receipt))
        requires
            self.wf(),
            index < self.transactions@.len(),
        ensures
            *pair.0 == self.transactions@[index as int],
            *pair.1 == self.receipts@[index as int],
    {
        (&self.transactions[index], &self.receipts[index])
    }

    /// Seals the block with `parts` and the hash that `seal` gives for its header.
    ///
    /// Where committing the withdrawals or computing the state root failed, the build
    /// fails. Else the payload carries the builder's identifier, transactions, fees,
    /// chain and attributes, no sidecars, and the header that `header_of` describes.
    pub fn into_payload<S: FnOnce(&Header) -> B256>(self, sealing: Sealing, seal: S) -> (built: Result<
        RedstoneBuiltPayload,
        PayloadBuilderError,
    >)
        requires
            self.wf(),
            forall|header: Header| call_requires(seal, (&header,)),
        ensures
            !(sealing is Computed) ==> built == Err::<RedstoneBuiltPayload, PayloadBuilderError>(
                PayloadBuilderError::Internal,
            ),
            sealing matches Sealing::Computed(parts) ==> (built matches Ok(payload)
                && self@.seals_to(parts, payload) && call_ensures(
                seal,
                (&payload.block.header,),
                payload.block.hash,
            )),
    {
        let parts = match sealing {
            Sealing::WithdrawalsFailed => {
                return Err(PayloadBuilderError::Internal);
            },
            Sealing::StateRootFailed => {
                return Err(PayloadBuilderError::Internal);
            },
            Sealing::Computed(parts) => parts,
        };
        let RedstonePayloadBuilder {
            attributes,
            chain_spec,
            block_env,
            cumulative_gas_used,
            total_fees,
            parent_block,
            transactions,
            receipts: _,
            extra_data,
        } = self;
        let is_cancun_active_now = chain_spec.is_cancun_active_at_timestamp(attributes.timestamp);
        let is_cancun_active_at_parent = chain_spec.is_cancun_active_at_timestamp(
            parent_block.timestamp,
        );
        let (excess_blob_gas, blob_gas_used) = next_blob_fields(
            is_cancun_active_now,
            is_cancun_active_at_parent,
            &parent_block,
        );
        let header = Header {
            parent_hash: parent_block.hash,
            ommers_hash: empty_ommer_root_hash(),
            beneficiary: block_env.coinbase,
            state_root: parts.roots.state_root,
            transactions_root: parts.roots.transactions_root,
            receipts_root: parts.roots.receipts_root,
            withdrawals_root: parts.withdrawals_root,
            logs_bloom: parts.roots.logs_bloom,
            difficulty: U256::zero(),
            number: parent_block.number + 1,
            gas_limit: block_env.gas_limit.saturating_to_u64(),
            gas_used: cumulative_gas_used,
            timestamp: attributes.timestamp,
            mix_hash: attributes.prev_randao,
            nonce: BEACON_NONCE,
            base_fee_per_gas: Some(block_env.basefee),
            blob_gas_used,
            excess_blob_gas,
            parent_beacon_block_root: attributes.parent_beacon_block_root,
            extra_data,
        };
        assert(header_of(self@, parts, header));
        let hash = seal(&header);
        let block = SealedBlock {
            header,
            hash,
            body: transactions,
            ommers: Vec::new(),
            withdrawals: parts.withdrawals,
        };
        Ok(
            RedstoneBuiltPayload {
                id: attributes.id,
                block,
                fees: total_fees,
                sidecars: Vec::new(),
                chain_spec,
                attributes,
            },
        )
    }
}

/// The payload that stands in for one that is missing when it is asked for: where the
/// block takes no transactions from the pool, whatever `try_build` builds, if it builds
/// anything; else nothing, and `try_build` is not called.
pub fn on_missing_payload<F: FnOnce() -> Result<RedstoneBuiltPayload, PayloadBuilderError>>(
    no_tx_pool: bool,
    try_build: F,
) -> (payload: Option<RedstoneBuiltPayload>)
    requires
        no_tx_pool ==> call_requires(try_build, ()),
    ensures
        !no_tx_pool ==> payload is None,
        no_tx_pool ==> exists|built: Result<RedstoneBuiltPayload, PayloadBuilderError>|
            call_ensures(try_build, (), built) && #[trigger] forced_best(built) == payload,
{
    if no_tx_pool {
        let built = try_build();
        let ghost witness = built;
        let payload = best_of(built);
        assert(forced_best(witness) == payload);
        payload
    } else {
        None
    }
}

/// The payload of a build that succeeded.
pub open spec fn forced_best(built: Result<RedstoneBuiltPayload, PayloadBuilderError>) -> Option<
    RedstoneBuiltPayload,
> {
    match built {
        Ok(payload) => Some(payload),
        Err(_) => None,
    }
}

/// The payload of a build that succeeded.
pub fn best_of(built: Result<RedstoneBuiltPayload, PayloadBuilderError>) -> (payload: Option<
    RedstoneBuiltPayload,
>)
    ensures
        payload == forced_best(built),
{
    match built {
        Ok(payload) => Some(payload),
        Err(_) => None,
    }
}

} // verus!
