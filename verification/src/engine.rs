//! The engine core: the nonce table, the pool and the payloads under construction,
//! with the decisions of the engine API and of the user-facing API.
//!
//! The blockchain, its state and the EVM live outside this crate. Every operation
//! here takes what they found as plain values and says what the engine does with it.

use crate::assoc::AssocList;
use crate::attributes::{RedstonePayloadAttributes, RedstonePayloadBuilderAttributes};
use crate::block::Header;
use crate::built_payload::{envelope, OptimismExecutionPayloadEnvelopeV3};
use crate::chain::{BlockEnv, ChainSpec, ParentBlock};
use crate::nonces::Nonces;
use crate::payload_builder::{
    buildable, can_run, copy_transactions, paired, pre_block_error, run, BuilderState,
    ExecutionOutcome, PayloadBuilderError, PreBlock, RedstonePayloadBuilder, Sealing,
};
use crate::primitives::{Address, PayloadId, B256};
use crate::receipt::TransactionMeta;
use crate::transaction::{Receipt, Transaction};
use crate::tx_pool::{add_model, add_result, PoolError, PoolState, TxPool};
use crate::u256::U256;
use vstd::prelude::*;

verus! {

/// What the engine is made with.
#[derive(Debug)]
pub struct Args {
    pub chain_spec: ChainSpec,
    /// The extra data that goes into the header of every block that is built.
    pub payload_extradata: Vec<u8>,
}

/// The state of the engine. All of it changes under one writer.
pub struct Engine {
    args: Args,
    nonces: Nonces,
    tx_pool: TxPool,
    payloads: AssocList<PayloadId, RedstonePayloadBuilder>,
}

/// Why a request had invalid parameters.
#[derive(Clone, Copy, Debug)]
pub enum InvalidParams {
    /// A raw transaction could not be decoded.
    UndecodableTransaction,
    /// The nonce of a transaction is the largest number, which no nonce can follow.
    NonceTooHigh,
    /// The pool refused the transaction.
    Pool(PoolError),
    /// No payload is under construction under this identifier.
    UnknownPayloadId(PayloadId),
    /// The payload could not be started, filled or sealed.
    Build(PayloadBuilderError),
    /// The block of a payload could not be put together.
    UndecodableBlock,
    /// The blockchain refused the block.
    BlockRejected,
}

/// Why a request of the engine API or of the user-facing API failed.
#[derive(Clone, Copy, Debug)]
pub enum EthApiError {
    InvalidParams(InvalidParams),
    /// The blockchain could not make the head canonical.
    MakeCanonicalFailed,
    /// No block with this hash is known.
    UnknownBlockHash(B256),
    /// The blockchain or its state failed.
    Provider,
    /// The signer of a transaction could not be recovered.
    TxTypeNotSupported,
    /// The signature of a stored transaction gives no sender.
    InvalidTransactionSignature,
    /// The nonce of an account could not be looked up.
    Internal,
}

/// The heads that the consensus layer declares.
#[derive(Clone, Copy, Debug)]
pub struct ForkchoiceState {
    pub head_block_hash: B256,
    pub safe_block_hash: B256,
    pub finalized_block_hash: B256,
}

/// Why a fork choice is invalid.
#[derive(Clone, Copy, Debug, PartialEq, Eq, Structural)]
pub enum ValidationError {
    HeadBlockHashIsZero,
}

impl ValidationError {
    /// The reason in words.
    pub fn message(&self) -> (text: &'static str)
        ensures
            text@ == "head-block-hash is zero"@,
    {
        "head-block-hash is zero"
    }
}

/// The verdict on a payload or a fork choice.
#[derive(Clone, Copy, Debug, PartialEq, Eq, Structural)]
pub enum PayloadStatusEnum {
    Valid,
    Invalid { validation_error: ValidationError },
}

/// A verdict with the hash of the latest valid block.
#[derive(Clone, Copy, Debug)]
pub struct PayloadStatus {
    pub status: PayloadStatusEnum,
    pub latest_valid_hash: Option<B256>,
}

/// What `engine_forkchoiceUpdatedV3` answers.
#[derive(Clone, Copy, Debug)]
pub struct ForkchoiceUpdated {
    pub payload_status: PayloadStatus,
    pub payload_id: Option<PayloadId>,
}

/// The verdict "invalid" with its reason.
pub fn state_invalid(validation_error: ValidationError) -> (status: PayloadStatusEnum)
    ensures
        status == (PayloadStatusEnum::Invalid { validation_error }),
{
    PayloadStatusEnum::Invalid { validation_error }
}

/// The answer to a fork choice update.
pub fn new_updated(
    status: PayloadStatusEnum,
    latest_valid_hash: Option<B256>,
    payload_id: Option<PayloadId>,
) -> (updated: ForkchoiceUpdated)
    ensures
        updated == (ForkchoiceUpdated {
            payload_status: PayloadStatus { status, latest_valid_hash },
            payload_id,
        }),
{
    ForkchoiceUpdated { payload_status: PayloadStatus { status, latest_valid_hash }, payload_id }
}

/// Where the handling of a fork choice update stands.
#[derive(Clone, Copy, Debug, PartialEq, Eq, Structural)]
pub enum ForkchoicePhase {
    /// Nothing was done yet.
    Start,
    /// The blockchain was asked to make the head canonical.
    MakingCanonical,
    /// The finalized block is being looked up.
    FindingFinalized,
    /// The safe block is being looked up.
    FindingSafe,
    /// The update is handled.
    Done,
}

/// What the blockchain answered to the last request.
#[derive(Clone, Copy, Debug, PartialEq, Eq, Structural)]
pub enum BlockchainEvent {
    /// Nothing was asked yet.
    Started,
    /// The head was made canonical, or was canonical already.
    Canonical,
    /// The head could not be made canonical.
    CanonicalFailed,
    /// The block that was looked up exists and has this number.
    BlockFound { number: u64 },
    /// No block has the hash that was looked up.
    BlockUnknown,
    /// Looking up the block failed.
    LookupFailed,
}

/// What has to be done next for a fork choice update.
#[derive(Clone, Copy, Debug)]
pub enum ForkchoiceAction {
    /// Answer "invalid" and change nothing.
    ReplyInvalid(ForkchoiceUpdated),
    /// Ask the blockchain to make the block with this hash canonical.
    MakeCanonical(B256),
    /// Make the header that came back the canonical head, then look up the block
    /// with this hash.
    SetCanonicalHeadAndFind(B256),
    /// Finalize the block with this number, mark the header of the block that was found
    /// as finalized under the hash `finalized`, then look up the block with the hash
    /// `find`.
    FinalizeAndFind { number: u64, finalized: B256, find: B256 },
    /// Mark the header of the block that was found as safe under this hash. With that
    /// the fork choice is applied: start a payload where attributes came, and answer
    /// "valid".
    SetSafeAndProceed(B256),
    /// Give up with this error.
    Fail(EthApiError),
}

/// Whether `event` is an answer to what was asked in `phase`.
pub open spec fn answers(phase: ForkchoicePhase, event: BlockchainEvent) -> bool {
    match phase {
        ForkchoicePhase::Start => event == BlockchainEvent::Started,
        ForkchoicePhase::MakingCanonical => event == BlockchainEvent::Canonical || event
            == BlockchainEvent::CanonicalFailed,
        ForkchoicePhase::FindingFinalized | ForkchoicePhase::FindingSafe => event is BlockFound
            || event == BlockchainEvent::BlockUnknown || event == BlockchainEvent::LookupFailed,
        ForkchoicePhase::Done => false,
    }
}

/// The next phase and action of a fork choice update.
///
/// A zero head is answered with "invalid" at once. Else the head is made canonical
/// and becomes the canonical head; the finalized block is looked up, finalized and
/// marked; the safe block is looked up and marked. A block that is not known ends the
/// update with `UnknownBlockHash` of the finalized hash, whichever of the two is
/// missing.
pub open spec fn forkchoice_next(
    state: ForkchoiceState,
    phase: ForkchoicePhase,
    event: BlockchainEvent,
) -> (ForkchoicePhase, ForkchoiceAction) {
    match phase {
        ForkchoicePhase::Start => if state.head_block_hash.spec_is_zero() {
            (
                ForkchoicePhase::Done,
                ForkchoiceAction::ReplyInvalid(
                    ForkchoiceUpdated {
                        payload_status: PayloadStatus {
                            status: PayloadStatusEnum::Invalid {
                                validation_error: ValidationError::HeadBlockHashIsZero,
                            },
                            latest_valid_hash: None,
                        },
                        payload_id: None,
                    },
                ),
            )
        } else {
            (ForkchoicePhase::MakingCanonical, ForkchoiceAction::MakeCanonical(state.head_block_hash))
        },
        ForkchoicePhase::MakingCanonical => if event == BlockchainEvent::Canonical {
            (
                ForkchoicePhase::FindingFinalized,
                ForkchoiceAction::SetCanonicalHeadAndFind(state.finalized_block_hash),
            )
        } else {
            (ForkchoicePhase::Done, ForkchoiceAction::Fail(EthApiError::MakeCanonicalFailed))
        },
        ForkchoicePhase::FindingFinalized => match event {
            BlockchainEvent::BlockFound { number } => (
                ForkchoicePhase::FindingSafe,
                ForkchoiceAction::FinalizeAndFind {
                    number,
                    finalized: state.finalized_block_hash,
                    find: state.safe_block_hash,
                },
            ),
            BlockchainEvent::BlockUnknown => (
                ForkchoicePhase::Done,
                ForkchoiceAction::Fail(EthApiError::UnknownBlockHash(state.finalized_block_hash)),
            ),
            _ => (ForkchoicePhase::Done, ForkchoiceAction::Fail(EthApiError::Provider)),
        },
        ForkchoicePhase::FindingSafe => match event {
            BlockchainEvent::BlockFound { number } => (
                ForkchoicePhase::Done,
                ForkchoiceAction::SetSafeAndProceed(state.safe_block_hash),
            ),
            BlockchainEvent::BlockUnknown => (
                ForkchoicePhase::Done,
                ForkchoiceAction::Fail(EthApiError::UnknownBlockHash(state.finalized_block_hash)),
            ),
            _ => (ForkchoicePhase::Done, ForkchoiceAction::Fail(EthApiError::Provider)),
        },
        ForkchoicePhase::Done => (
            ForkchoicePhase::Done,
            ForkchoiceAction::Fail(EthApiError::Provider),
        ),
    }
}

/// One step of a fork choice update: from the phase and the blockchain's answer to the
/// next phase and what to do.
pub fn process_forkchoice_updated(
    state: ForkchoiceState,
    phase: ForkchoicePhase,
    event: BlockchainEvent,
) -> (next: (ForkchoicePhase, ForkchoiceAction))
    requires
        answers(phase, event),
    ensures
        next == forkchoice_next(state, phase, event),
{
    match phase {
        ForkchoicePhase::Start => {
            if state.head_block_hash.is_zero() {
                (
                    ForkchoicePhase::Done,
                    ForkchoiceAction::ReplyInvalid(
                        new_updated(state_invalid(ValidationError::HeadBlockHashIsZero), None, None),
                    ),
                )
            } else {
                (
                    ForkchoicePhase::MakingCanonical,
                    ForkchoiceAction::MakeCanonical(state.head_block_hash),
                )
            }
        },
        ForkchoicePhase::MakingCanonical => {
            match event {
                BlockchainEvent::Canonical => (
                    ForkchoicePhase::FindingFinalized,
                    ForkchoiceAction::SetCanonicalHeadAndFind(state.finalized_block_hash),
                ),
                _ => (
                    ForkchoicePhase::Done,
                    ForkchoiceAction::Fail(EthApiError::MakeCanonicalFailed),
                ),
            }
        },
        ForkchoicePhase::FindingFinalized => {
            match event {
                BlockchainEvent::BlockFound { number } => (
                    ForkchoicePhase::FindingSafe,
                    ForkchoiceAction::FinalizeAndFind {
                        number,
                        finalized: state.finalized_block_hash,
                        find: state.safe_block_hash,
                    },
                ),
                BlockchainEvent::BlockUnknown => (
                    ForkchoicePhase::Done,
                    ForkchoiceAction::Fail(
                        EthApiError::UnknownBlockHash(state.finalized_block_hash),
                    ),
                ),
                _ => (ForkchoicePhase::Done, ForkchoiceAction::Fail(EthApiError::Provider)),
            }
        },
        ForkchoicePhase::FindingSafe => {
            match event {
                BlockchainEvent::BlockFound { number: _ } => (
                    ForkchoicePhase::Done,
                    ForkchoiceAction::SetSafeAndProceed(state.safe_block_hash),
                ),
                BlockchainEvent::BlockUnknown => (
                    ForkchoicePhase::Done,
                    ForkchoiceAction::Fail(
                        EthApiError::UnknownBlockHash(state.finalized_block_hash),
                    ),
                ),
                _ => (ForkchoicePhase::Done, ForkchoiceAction::Fail(EthApiError::Provider)),
            }
        },
        ForkchoicePhase::Done => (
            ForkchoicePhase::Done,
            ForkchoiceAction::Fail(EthApiError::Provider),
        ),
    }
}

/// The answer to a fork choice update that was applied: "valid", with the head as the
/// latest valid block and the identifier of the payload that was started, if one was.
pub fn forkchoice_applied(state: ForkchoiceState, payload_id: Option<PayloadId>) -> (updated:
    ForkchoiceUpdated)
    ensures
        updated == (ForkchoiceUpdated {
            payload_status: PayloadStatus {
                status: PayloadStatusEnum::Valid,
                latest_valid_hash: Some(state.head_block_hash),
            },
            payload_id,
        }),
{
    new_updated(PayloadStatusEnum::Valid, Some(state.head_block_hash), payload_id)
}

/// The verdict on a block that the consensus layer sent. `block_hash` is the hash of
/// the block that was put together from the payload, `None` where that failed;
/// `inserted` tells whether the blockchain took the block.
pub fn new_payload(block_hash: Option<B256>, inserted: bool) -> (verdict: Result<
    PayloadStatus,
    EthApiError,
>)
    ensures
        verdict == (match block_hash {
            None => Err::<PayloadStatus, EthApiError>(
                EthApiError::InvalidParams(InvalidParams::UndecodableBlock),
            ),
            Some(hash) => if inserted {
                Ok::<PayloadStatus, EthApiError>(
                    PayloadStatus { status: PayloadStatusEnum::Valid, latest_valid_hash: Some(hash) },
                )
            } else {
                Err::<PayloadStatus, EthApiError>(
                    EthApiError::InvalidParams(InvalidParams::BlockRejected),
                )
            },
        }),
{
    match block_hash {
        None => Err(EthApiError::InvalidParams(InvalidParams::UndecodableBlock)),
        Some(hash) => {
            if inserted {
                Ok(PayloadStatus { status: PayloadStatusEnum::Valid, latest_valid_hash: Some(hash) })
            } else {
                Err(EthApiError::InvalidParams(InvalidParams::BlockRejected))
            }
        },
    }
}

/// What was found of the block that a payload is to be built on.
#[derive(Debug)]
pub enum ParentLookup {
    /// Looking up the block failed.
    Failed,
    /// No block has the hash of the head.
    Unknown,
    /// The block exists.
    Found(FoundParent),
}

/// The block that a payload is built on, with what was found for the new block.
#[derive(Debug)]
pub struct FoundParent {
    pub parent: ParentBlock,
    /// The environment of the new block.
    pub block_env: BlockEnv,
    /// How the work before the first transaction ended.
    pub pre_block: PreBlock,
    /// How the EVM answered for each forced transaction, in their order.
    pub outcomes: Vec<ExecutionOutcome>,
}

/// The transactions of `raw` where all of them were decoded, else `None`.
pub open spec fn all_decoded(raw: Seq<Option<Transaction>>) -> Option<Seq<Transaction>> {
    if forall|i: int| 0 <= i < raw.len() ==> (#[trigger] raw[i]) is Some {
        Some(Seq::new(raw.len(), |i: int| raw[i]->0))
    } else {
        None
    }
}

/// The transactions of `raw` where all of them were decoded, else `None`.
pub fn decode_all(raw: &Vec<Option<Transaction>>) -> (decoded: Option<Vec<Transaction>>)
    ensures
        all_decoded(raw@) matches Some(txs) ==> (decoded matches Some(list) && list@ == txs),
        all_decoded(raw@) is None ==> decoded is None,
{
    let mut list: Vec<Transaction> = Vec::new();
    let mut i: usize = 0;
    while i < raw.len()
        invariant
            i <= raw@.len(),
            list@.len() == i,
            forall|k: int| 0 <= k < i ==> (#[trigger] raw@[k]) is Some && list@[k] == raw@[k]->0,
        decreases raw@.len() - i,
    {
        match raw[i] {
            Some(tx) => {
                list.push(tx);
            },
            None => {
                assert(raw@[i as int] is None);
                return None;
            },
        }
        i += 1;
    }
    assert(list@ =~= Seq::new(raw@.len(), |k: int| raw@[k]->0));
    Some(list)
}

/// A copy of `bytes`.
pub fn copy_bytes(bytes: &Vec<u8>) -> (copy: Vec<u8>)
    ensures
        copy@ == bytes@,
{
    let mut copy: Vec<u8> = Vec::new();
    let mut i: usize = 0;
    while i < bytes.len()
        invariant
            i <= bytes@.len(),
            copy@ == bytes@.take(i as int),
        decreases bytes@.len() - i,
    {
        copy.push(bytes[i]);
        assert(bytes@.take(i + 1) =~= bytes@.take(i as int).push(bytes@[i as int]));
        i += 1;
    }
    assert(bytes@.take(bytes@.len() as int) =~= bytes@);
    copy
}

/// What a transaction that was sent in led to.
#[derive(Debug)]
pub struct Admitted {
    /// The hash of the transaction.
    pub tx_hash: B256,
    /// The payload that takes the scheduled transactions, where exactly one payload
    /// is under construction.
    pub target: Option<PayloadId>,
    /// The transactions that were taken off the pool's queue for that payload, in the
    /// order in which they were scheduled.
    pub drained: Vec<Transaction>,
}

/// Makes an engine without accounts, transactions or payloads.
pub fn create(args: Args) -> (engine: Engine)
    ensures
        engine.wf(),
        engine.chain_spec() == args.chain_spec,
        engine.extra_data() == args.payload_extradata@,
        engine.nonces() == Map::<Address, u64>::empty(),
        engine.payloads() == Map::<PayloadId, BuilderState>::empty(),
        engine.pool().scheduled == Seq::<Transaction>::empty(),
        engine.pool().pending == Map::<Address, Seq<Transaction>>::empty(),
{
    let engine = Engine {
        args,
        nonces: Nonces::new(),
        tx_pool: TxPool::new(),
        payloads: AssocList::new(),
    };
    assert(engine.payloads() =~= Map::<PayloadId, BuilderState>::empty());
    engine
}

impl Engine {
    /// The chain of the engine.
    pub closed spec fn chain_spec(&self) -> ChainSpec {
        self.args.chain_spec
    }

    /// The extra data of the blocks that the engine builds.
    pub closed spec fn extra_data(&self) -> Seq<u8> {
        self.args.payload_extradata@
    }

    /// The expected next nonce per account.
    pub closed spec fn nonces(&self) -> Map<Address, u64> {
        self.nonces@
    }

    /// The pool with the nonce table.
    pub closed spec fn pool(&self) -> PoolState {
        self.tx_pool.state(self.nonces@)
    }

    /// The payloads under construction.
    pub closed spec fn payloads(&self) -> Map<PayloadId, BuilderState> {
        Map::new(
            |id: PayloadId| self.payloads@.contains_key(id),
            |id: PayloadId| self.payloads@[id]@,
        )
    }

    /// The engine's invariant: the nonce table, the pool and every payload under
    /// construction meet their own.
    pub closed spec fn wf(&self) -> bool {
        &&& self.nonces.wf()
        &&& self.tx_pool.wf(self.nonces@)
        &&& self.payloads.wf()
        &&& forall|id: PayloadId| #[trigger]
            self.payloads@.contains_key(id) ==> self.payloads@[id].wf()
    }

    /// What the invariant says of the pool and of the payloads, and that the
    /// payloads are finitely many.
    pub proof fn lemma_wf(&self)
        requires
            self.wf(),
        ensures
            crate::tx_pool::state_wf(self.pool()),
            forall|id: PayloadId| #[trigger]
                self.payloads().contains_key(id) ==> self.payloads()[id].wf(),
            self.payloads().dom().finite(),
    {
        self.payloads.lemma_view();
        assert(self.payloads().dom() =~= self.payloads@.dom());
    }

    /// The identifier of the chain.
    pub fn chain_id(&self) -> (id: Option<u64>)
        ensures
            id == Some(self.chain_spec().chain_id),
    {
        Some(self.args.chain_spec.chain_id())
    }

    /// The gas that a call would use. Nothing is estimated: the answer is zero.
    pub fn estimate_gas(&self) -> (gas: U256)
        ensures
            gas.value() == 0,
    {
        U256::zero()
    }

    /// The number of payloads under construction.
    pub fn payload_count(&self) -> (count: usize)
        requires
            self.wf(),
        ensures
            count == self.payloads().dom().len(),
    {
        proof {
            self.payloads.lemma_view();
            assert(self.payloads().dom() =~= self.payloads@.dom());
        }
        self.payloads.len()
    }

    /// The number of transactions that are scheduled in the pool.
    pub fn scheduled_count(&self) -> (count: usize)
        ensures
            count == self.pool().scheduled.len(),
    {
        self.tx_pool.scheduled_count()
    }

    /// Copies of the receipts of the payload under `payload_id`, in the order of its
    /// block.
    pub fn payload_receipts(&self, payload_id: &PayloadId) -> (receipts: Option<Vec<Receipt>>)
        requires
            self.wf(),
        ensures
            receipts is Some <==> self.payloads().contains_key(*payload_id),
            receipts matches Some(list) ==> list@.len() == self.payloads()[*payload_id].receipts.len()
                && forall|i: int|
                0 <= i < list@.len() ==> (#[trigger] list@[i])@
                    == self.payloads()[*payload_id].receipts[i]@,
    {
        match self.payloads.get(payload_id) {
            Some(builder) => {
                let mut list: Vec<Receipt> = Vec::new();
                let mut i: usize = 0;
                while i < builder.receipts.len()
                    invariant
                        i <= builder.receipts@.len(),
                        list@.len() == i,
                        forall|k: int|
                            0 <= k < i ==> (#[trigger] list@[k])@ == builder.receipts@[k]@,
                    decreases builder.receipts@.len() - i,
                {
                    list.push(builder.receipts[i].duplicate());
                    i += 1;
                }
                Some(list)
            },
            None => None,
        }
    }

    /// Whether a payload is under construction under `payload_id`.
    pub fn contains_payload(&self, payload_id: &PayloadId) -> (known: bool)
        requires
            self.wf(),
        ensures
            known == self.payloads().contains_key(*payload_id),
    {
        self.payloads.position(payload_id).is_some()
    }

    /// The number of transactions that `address` has sent, as the engine sees it: the
    /// expected next nonce where the account has one, else the nonce that `fetch_fn`
    /// finds in the latest state, zero for an account that the state does not know.
    pub fn transaction_count<E, F: FnOnce(Address) -> Result<Option<u64>, E>>(
        &self,
        address: Address,
        fetch_fn: F,
    ) -> (count: Result<U256, E>)
        requires
            self.wf(),
            !self.nonces().contains_key(address) ==> call_requires(fetch_fn, (address,)),
        ensures
            self.nonces().contains_key(address) ==> (count matches Ok(n) && n.value()
                == self.nonces()[address]),
            !self.nonces().contains_key(address) ==> exists|fetched: Result<Option<u64>, E>|
                call_ensures(fetch_fn, (address,), fetched) && #[trigger] counted(fetched, count),
    {
        match self.nonces.get(&address) {
            Some(nonce) => Ok(U256::from_u64(nonce)),
            None => {
                let fetched = fetch_fn(address);
                let ghost witness = fetched;
                let count = state_transaction_count(fetched);
                assert(counted(witness, count));
                count
            },
        }
    }

    /// Takes a transaction that was sent in, given what the latest state holds for its
    /// sender: `found` is the sender's nonce there, zero for an account that the state
    /// does not know, and `None` where the lookup failed. It is read only for a sender
    /// without an entry in the nonce table.
    ///
    /// A transaction that could not be decoded, has no recoverable signer, carries the
    /// largest nonce or is refused by the pool fails; so does a failed lookup. Else the
    /// pool takes it, and where exactly one payload is under construction the scheduled
    /// transactions are handed out for it.
    pub fn take_transaction(&mut self, decoded: Option<Transaction>, found: Option<u64>) -> (sent: Result<
        Admitted,
        EthApiError,
    >)
        requires
            old(self).wf(),
        ensures
            final(self).wf(),
            final(self).chain_spec() == old(self).chain_spec(),
            final(self).extra_data() == old(self).extra_data(),
            final(self).payloads() == old(self).payloads(),
            admission_result(old(self).nonces(), decoded, found) matches Err(error) ==> sent
                == Err::<Admitted, EthApiError>(error) && final(self).pool() == admission_pool(
                old(self).pool(),
                decoded,
                found,
            ),
            admission_result(old(self).nonces(), decoded, found) is Ok ==> (sent matches Ok(
                admitted,
            ) && admitted_as(
                old(self).pool(),
                old(self).payloads(),
                decoded,
                found,
                final(self).pool(),
                admitted,
            )),
            final(self).nonces() == final(self).pool().nonces,
    {
        let tx = match decoded {
            Some(tx) => tx,
            None => {
                return Err(EthApiError::InvalidParams(InvalidParams::UndecodableTransaction));
            },
        };
        let tx_hash = tx.hash;
        let from_address = match tx.signer {
            Some(address) => address,
            None => {
                return Err(EthApiError::TxTypeNotSupported);
            },
        };
        let ghost before = self.pool();
        let fetched: Result<u64, ()> = match found {
            Some(nonce) => Ok(nonce),
            None => Err(()),
        };
        proof {
            if !self.nonces@.contains_key(from_address) && found is Some {
                crate::tx_pool::lemma_new_account_keeps_invariant(before, from_address, found->0);
            }
        }
        match self.nonces.record_fetched(from_address, fetched) {
            Ok(_) => {},
            Err(_) => {
                return Err(EthApiError::Internal);
            },
        }
        let ghost looked_up = self.pool();
        assert(looked_up == PoolState {
            nonces: nonces_with(before.nonces, from_address, found.unwrap_or(0)),
            ..before
        });
        if tx.nonce == u64::MAX {
            return Err(EthApiError::InvalidParams(InvalidParams::NonceTooHigh));
        }
        match self.tx_pool.add(&mut self.nonces, tx) {
            Ok(_) => {},
            Err(error) => {
                return Err(EthApiError::InvalidParams(InvalidParams::Pool(error)));
            },
        }
        let ghost taken = self.pool();
        proof {
            self.payloads.lemma_view();
            assert(self.payloads().dom() =~= self.payloads@.dom());
        }
        if self.payloads.len() == 1 {
            let payload_id = self.payloads.entry(0).key;
            proof {
                let domain = self.payloads().dom();
                assert(domain.contains(payload_id));
                assert(domain.choose() == payload_id) by {
                    let chosen = domain.choose();
                    let rest = domain.remove(payload_id);
                    assert(rest.len() == 0);
                    if chosen != payload_id {
                        assert(rest.contains(chosen));
                        assert(rest.remove(chosen).len() == rest.len() - 1);
                    }
                }
            }
            let drained = self.tx_pool.scheduled_drain();
            Ok(Admitted { tx_hash, target: Some(payload_id), drained })
        } else {
            Ok(Admitted { tx_hash, target: None, drained: Vec::new() })
        }
    }

    /// Takes a transaction that was sent in. `decoded` is the transaction, `None` where
    /// decoding failed. For a sender without an entry in the nonce table `fetch_fn` is
    /// asked for the sender's nonce in the latest state; with what it finds the
    /// transaction is handled as `take_transaction` says.
    pub fn send_raw_transaction<E, F: FnOnce(Address) -> Result<Option<u64>, E>>(
        &mut self,
        decoded: Option<Transaction>,
        fetch_fn: F,
    ) -> (sent: Result<Admitted, EthApiError>)
        requires
            old(self).wf(),
            decoded matches Some(tx) ==> (tx.signer matches Some(account) ==> (!old(
                self,
            ).nonces().contains_key(account) ==> call_requires(fetch_fn, (account,)))),
        ensures
            final(self).wf(),
            final(self).chain_spec() == old(self).chain_spec(),
            final(self).extra_data() == old(self).extra_data(),
            final(self).payloads() == old(self).payloads(),
            final(self).nonces() == final(self).pool().nonces,
            exists|found: Option<u64>| #[trigger]
                sent_as(
                    old(self).pool(),
                    old(self).payloads(),
                    decoded,
                    found,
                    final(self).pool(),
                    sent,
                ) && (decoded matches Some(tx) ==> (tx.signer matches Some(account) ==> (!old(
                    self,
                ).nonces().contains_key(account) ==> exists|fetched: Result<Option<u64>, E>|
                    call_ensures(fetch_fn, (account,), fetched) && #[trigger] found_nonce(fetched)
                        == found))),
    {
        let needs_lookup = match decoded {
            Some(tx) => match tx.signer {
                Some(account) => self.nonces.get(&account).is_none(),
                None => false,
            },
            None => false,
        };
        let found = if needs_lookup {
            let account = match decoded {
                Some(tx) => match tx.signer {
                    Some(account) => account,
                    None => Address { bytes: [0u8; 20] },
                },
                None => Address { bytes: [0u8; 20] },
            };
            let fetched = fetch_fn(account);
            let ghost witness = fetched;
            let found = nonce_found(fetched);
            assert(found_nonce(witness) == found);
            found
        } else {
            None
        };
        let sent = self.take_transaction(decoded, found);
        assert(sent_as(old(self).pool(), old(self).payloads(), decoded, found, self.pool(), sent));
        sent
    }

    /// Takes the transactions that were drained for the payload `target` into it, given
    /// how the EVM answered for each. Every one of them pays fees; one that fails is
    /// passed over, and the others still enter the block in their order.
    pub fn process_drained(
        &mut self,
        target: PayloadId,
        drained: &Vec<Transaction>,
        outcomes: Vec<ExecutionOutcome>,
    )
        requires
            old(self).wf(),
            old(self).payloads().contains_key(target),
            drained@.len() == outcomes@.len(),
            can_run(old(self).payloads()[target], false, true, paired(drained@, outcomes@)),
        ensures
            final(self).wf(),
            final(self).chain_spec() == old(self).chain_spec(),
            final(self).extra_data() == old(self).extra_data(),
            final(self).nonces() == old(self).nonces(),
            final(self).pool() == old(self).pool(),
            final(self).payloads() == old(self).payloads().insert(
                target,
                run(old(self).payloads()[target], false, true, paired(drained@, outcomes@)).0,
            ),
    {
        let ghost before = self.payloads@;
        match self.payloads.get_mut(&target) {
            Some(builder) => {
                let _ = builder.process_each(drained, outcomes, false, true);
            },
            None => {},
        }
        proof {
            let after = run(old(self).payloads()[target], false, true, paired(drained@, outcomes@)).0;
            assert(self.payloads@[target]@ == after);
            assert(self.payloads() =~= old(self).payloads().insert(target, after));
            assert forall|id: PayloadId| #[trigger]
                self.payloads@.contains_key(id) implies self.payloads@[id].wf() by {
                if id != target {
                    assert(before.contains_key(id));
                    assert(self.payloads@[id] == before[id]);
                }
            }
        }
    }

    /// Looks for the transaction with the hash `hash` in the payloads under
    /// construction, and hands back a copy of it with a copy of its receipt.
    pub fn from_builder(&self, hash: B256) -> (found: Option<(Transaction, Receipt)>)
        requires
            self.wf(),
        ensures
            found matches Some((tx, receipt)) ==> tx.hash == hash && exists|id: PayloadId, i: int|
                #[trigger] holds_at(self.payloads(), id, i, tx, receipt@),
            found is None ==> forall|id: PayloadId, i: int|
                self.payloads().contains_key(id) && 0 <= i < self.payloads()[id].transactions.len()
                    ==> (#[trigger] self.payloads()[id].transactions[i]).hash != hash,
    {
        let count = self.payloads.len();
        let mut p: usize = 0;
        proof {
            self.payloads.lemma_view();
        }
        while p < count
            invariant
                self.wf(),
                count == self.payloads.entries().len(),
                p <= count,
                forall|q: int, i: int|
                    0 <= q < p && 0 <= i < self.payloads.entries()[q].value.transactions@.len() ==> (
                    #[trigger] self.payloads.entries()[q].value.transactions@[i]).hash != hash,
            decreases count - p,
        {
            let entry = self.payloads.entry(p);
            let builder = &entry.value;
            assert(builder.wf());
            let mut j: usize = 0;
            while j < builder.transactions.len()
                invariant
                    builder.wf(),
                    *builder == self.payloads.entries()[p as int].value,
                    self.payloads@.contains_key(entry.key),
                    self.payloads@[entry.key] == *builder,
                    j <= builder.transactions@.len(),
                    forall|i: int| 0 <= i < j ==> (#[trigger] builder.transactions@[i]).hash != hash,
                decreases builder.transactions@.len() - j,
            {
                let (tx, receipt) = builder.transaction_with_receipt(j);
                if tx.hash == hash {
                    let copy = receipt.duplicate();
                    assert(holds_at(self.payloads(), entry.key, j as int, *tx, copy@));
                    return Some((*tx, copy));
                }
                j += 1;
            }
            p += 1;
        }
        proof {
            assert forall|id: PayloadId, i: int|
                self.payloads().contains_key(id) && 0 <= i
                    < self.payloads()[id].transactions.len() implies (
            #[trigger] self.payloads()[id].transactions[i]).hash != hash by {
                let q = crate::assoc::key_index(self.payloads.entries(), id);
                assert(crate::assoc::has_key(self.payloads.entries(), id));
                crate::assoc::lemma_entry_in_map(self.payloads.entries(), q);
                assert(self.payloads.entries()[q].value.transactions@[i].hash != hash);
            }
        }
        None
    }

    /// The transaction with the hash `hash`, with its receipt and its place in the
    /// chain, from which `make_any_transaction_receipt` makes the answer. `stored` is
    /// what the blockchain holds under the hash. Where it holds nothing, the payloads
    /// under construction are searched; a transaction that is found there has no place
    /// in the chain yet.
    pub fn transaction_receipt(
        &self,
        hash: B256,
        stored: Result<Option<(Transaction, TransactionMeta, Receipt)>, ()>,
    ) -> (found: Result<Option<(Transaction, TransactionMeta, Receipt)>, EthApiError>)
        requires
            self.wf(),
        ensures
            stored is Err ==> found == Err::<
                Option<(Transaction, TransactionMeta, Receipt)>,
                EthApiError,
            >(EthApiError::Provider),
            stored matches Ok(Some(triple)) ==> found == Ok::<
                Option<(Transaction, TransactionMeta, Receipt)>,
                EthApiError,
            >(Some(triple)),
            stored matches Ok(None) ==> (match found {
                Ok(Some((tx, meta, receipt))) => tx.hash == hash && meta == (TransactionMeta {
                    tx_hash: B256::spec_zero(),
                    index: 0,
                    block_hash: B256::spec_zero(),
                    block_number: 0,
                    base_fee: None,
                    excess_blob_gas: None,
                    timestamp: 0,
                }) && exists|id: PayloadId, i: int| #[trigger]
                    holds_at(self.payloads(), id, i, tx, receipt@),
                Ok(None) => forall|id: PayloadId, i: int|
                    self.payloads().contains_key(id) && 0 <= i
                        < self.payloads()[id].transactions.len() ==> (
                    #[trigger] self.payloads()[id].transactions[i]).hash != hash,
                Err(_) => false,
            }),
    {
        match stored {
            Err(_) => Err(EthApiError::Provider),
            Ok(Some(triple)) => Ok(Some(triple)),
            Ok(None) => match self.from_builder(hash) {
                Some((tx, receipt)) => Ok(Some((tx, TransactionMeta::default(), receipt))),
                None => Ok(None),
            },
        }
    }

    /// Starts a payload on the head of `state`.
    ///
    /// A forced transaction that could not be decoded, a parent block that is not
    /// known or could not be looked up, a failure before the first transaction, and a
    /// forced transaction that fails, each end the request, and the engine stays as it
    /// was. Else the payload is stored under its identifier, which is derived from the
    /// head, the attributes and the forced transactions; no forced transaction pays
    /// fees.
    pub fn process_payload_attributes(
        &mut self,
        state: ForkchoiceState,
        attrs: RedstonePayloadAttributes,
        transactions: Vec<Option<Transaction>>,
        lookup: ParentLookup,
    ) -> (started: Result<PayloadId, EthApiError>)
        requires
            old(self).wf(),
            all_decoded(transactions@) matches Some(txs) ==> (lookup matches ParentLookup::Found(
                found,
            ) ==> {
                &&& buildable(old(self).chain_spec(), attrs.timestamp, found.parent)
                &&& found.outcomes@.len() == txs.len()
                &&& pre_block_error(found.pre_block) is None ==> forall|
                    attributes: RedstonePayloadBuilderAttributes,
                |
                    attributes.transactions@ == txs && attributes.timestamp == attrs.timestamp
                        ==> can_run(
                        #[trigger] start_state_of(*old(self), attributes, found),
                        true,
                        false,
                        paired(txs, found.outcomes@),
                    )
            }),
        ensures
            final(self).wf(),
            final(self).chain_spec() == old(self).chain_spec(),
            final(self).extra_data() == old(self).extra_data(),
            final(self).nonces() == old(self).nonces(),
            final(self).pool() == old(self).pool(),
            started is Err ==> final(self).payloads() == old(self).payloads(),
            all_decoded(transactions@) is None ==> started == Err::<PayloadId, EthApiError>(
                EthApiError::InvalidParams(InvalidParams::UndecodableTransaction),
            ),
            all_decoded(transactions@) matches Some(txs) ==> (match lookup {
                ParentLookup::Failed => started == Err::<PayloadId, EthApiError>(
                    EthApiError::Provider,
                ),
                ParentLookup::Unknown => started == Err::<PayloadId, EthApiError>(
                    EthApiError::UnknownBlockHash(state.head_block_hash),
                ),
                ParentLookup::Found(found) => exists|attributes: RedstonePayloadBuilderAttributes|
                    #[trigger] attributes_of(attributes, state.head_block_hash, attrs, txs) && ({
                        let start = start_state_of(*old(self), attributes, found);
                        let (built, failed) = run(start, true, false, paired(txs, found.outcomes@));
                        if pre_block_error(found.pre_block) is Some {
                            started == Err::<PayloadId, EthApiError>(
                                EthApiError::InvalidParams(
                                    InvalidParams::Build(pre_block_error(found.pre_block)->0),
                                ),
                            )
                        } else if failed is Some {
                            started == Err::<PayloadId, EthApiError>(
                                EthApiError::InvalidParams(InvalidParams::Build(failed->0)),
                            )
                        } else {
                            started == Ok::<PayloadId, EthApiError>(attributes.id)
                                && final(self).payloads() == old(self).payloads().insert(
                                attributes.id,
                                built,
                            )
                        }
                    }),
            }),
    {
        let txs = match decode_all(&transactions) {
            Some(txs) => txs,
            None => {
                return Err(EthApiError::InvalidParams(InvalidParams::UndecodableTransaction));
            },
        };
        let found = match lookup {
            ParentLookup::Failed => {
                return Err(EthApiError::Provider);
            },
            ParentLookup::Unknown => {
                return Err(EthApiError::UnknownBlockHash(state.head_block_hash));
            },
            ParentLookup::Found(found) => found,
        };
        let ghost decoded = txs@;
        let forced = copy_transactions(&txs);
        let builder_attributes = RedstonePayloadBuilderAttributes::try_new(
            state.head_block_hash,
            attrs,
            txs,
        );
        let ghost witness = builder_attributes;
        let ghost start = start_state_of(*self, witness, found);
        proof {
            assert(attributes_of(witness, state.head_block_hash, attrs, decoded));
        }
        let payload_id = builder_attributes.payload_id();
        let FoundParent { parent, block_env, pre_block, outcomes } = found;
        let extra_data = copy_bytes(&self.args.payload_extradata);
        let mut builder = match RedstonePayloadBuilder::init(
            builder_attributes,
            self.args.chain_spec,
            parent,
            block_env,
            extra_data,
            pre_block,
        ) {
            Ok(builder) => builder,
            Err(error) => {
                return Err(EthApiError::InvalidParams(InvalidParams::Build(error)));
            },
        };
        assert(builder@ == start);
        match builder.process_each(&forced, outcomes, true, false) {
            Ok(_) => {},
            Err(error) => {
                return Err(EthApiError::InvalidParams(InvalidParams::Build(error)));
            },
        }
        let ghost built = builder@;
        self.payloads.insert(payload_id, builder);
        proof {
            assert(self.payloads() =~= old(self).payloads().insert(payload_id, built));
            assert forall|id: PayloadId| #[trigger]
                self.payloads@.contains_key(id) implies self.payloads@[id].wf() by {
                if id != payload_id {
                    assert(old(self).payloads@.contains_key(id));
                }
            }
        }
        Ok(payload_id)
    }

    /// Hands out the payload that was built under `payload_id`, sealed with `sealing`
    /// and the hash that `seal` gives for its header.
    ///
    /// The payload leaves the engine, whether sealing succeeds or not. An identifier
    /// under which nothing is built, and a failure to seal, are invalid parameters.
    pub fn process_get_payload<S: FnOnce(&Header) -> B256>(
        &mut self,
        payload_id: PayloadId,
        sealing: Sealing,
        seal: S,
    ) -> (got: Result<OptimismExecutionPayloadEnvelopeV3, EthApiError>)
        requires
            old(self).wf(),
            forall|header: Header| call_requires(seal, (&header,)),
        ensures
            final(self).wf(),
            final(self).chain_spec() == old(self).chain_spec(),
            final(self).extra_data() == old(self).extra_data(),
            final(self).nonces() == old(self).nonces(),
            final(self).pool() == old(self).pool(),
            final(self).payloads() == old(self).payloads().remove(payload_id),
            !old(self).payloads().contains_key(payload_id) ==> got == Err::<
                OptimismExecutionPayloadEnvelopeV3,
                EthApiError,
            >(EthApiError::InvalidParams(InvalidParams::UnknownPayloadId(payload_id))),
            old(self).payloads().contains_key(payload_id) && !(sealing is Computed) ==> got == Err::<
                OptimismExecutionPayloadEnvelopeV3,
                EthApiError,
            >(EthApiError::InvalidParams(InvalidParams::Build(PayloadBuilderError::Internal))),
            old(self).payloads().contains_key(payload_id) ==> (sealing matches Sealing::Computed(
                parts,
            ) ==> (got matches Ok(envelope) && enveloped(
                old(self).payloads()[payload_id],
                parts,
                envelope,
            ) && exists|header: Header|
                crate::payload_builder::header_of(old(self).payloads()[payload_id], parts, header)
                    && #[trigger] call_ensures(
                    seal,
                    (&header,),
                    envelope.execution_payload.payload_inner.payload_inner.block_hash,
                ))),
    {
        let removed = self.payloads.remove(&payload_id);
        proof {
            assert(self.payloads() =~= old(self).payloads().remove(payload_id));
            assert forall|id: PayloadId| #[trigger]
                self.payloads@.contains_key(id) implies self.payloads@[id].wf() by {
                assert(old(self).payloads@.contains_key(id));
            }
        }
        let builder = match removed {
            Some(builder) => builder,
            None => {
                return Err(EthApiError::InvalidParams(InvalidParams::UnknownPayloadId(payload_id)));
            },
        };
        assert(old(self).payloads@.contains_key(payload_id));
        let ghost state = builder@;
        let payload = match builder.into_payload(sealing, seal) {
            Ok(payload) => payload,
            Err(error) => {
                return Err(EthApiError::InvalidParams(InvalidParams::Build(error)));
            },
        };
        let ghost parts = sealing->Computed_0;
        let ghost header = payload.block.header;
        let ghost sidecars = payload.sidecars@;
        proof {
            crate::block::lemma_no_blobs_no_blob_gas(payload.block.body@);
            assert(call_ensures(seal, (&payload.block.header,), payload.block.hash));
            assert(crate::built_payload::all_commitments(sidecars).len() == 0);
            assert(crate::built_payload::all_proofs(sidecars).len() == 0);
            assert(crate::built_payload::all_blobs(sidecars).len() == 0);
        }
        let envelope = envelope(payload);
        proof {
            let inner = envelope.execution_payload.payload_inner.payload_inner;
            assert(inner.base_fee_per_gas.value() == state.block_env.basefee);
            assert(inner.extra_data@ == state.extra_data);
            assert(inner.transactions@ == state.transactions);
            assert(envelope.block_value.value() == state.total_fees);
            assert(enveloped(state, parts, envelope));
            assert(crate::payload_builder::header_of(state, parts, header));
            assert(state == old(self).payloads()[payload_id]);
            assert(call_ensures(seal, (&header,), inner.block_hash));
        }
        Ok(envelope)
    }
}

/// The state of a builder that the engine starts with `attributes` on the parent that
/// was found.
pub open spec fn start_state_of(
    engine: Engine,
    attributes: RedstonePayloadBuilderAttributes,
    found: FoundParent,
) -> BuilderState {
    crate::payload_builder::start_state(
        attributes,
        engine.chain_spec(),
        found.block_env,
        found.parent,
        engine.extra_data(),
    )
}

/// Whether `attributes` are the builder attributes for a block on `parent` with the
/// attributes `attrs` and the forced transactions `txs`.
pub open spec fn attributes_of(
    attributes: RedstonePayloadBuilderAttributes,
    parent: B256,
    attrs: RedstonePayloadAttributes,
    txs: Seq<Transaction>,
) -> bool {
    &&& attributes.id@ == crate::attributes::payload_id_spec(parent, attrs, txs)
    &&& attributes.parent == parent
    &&& attributes.timestamp == attrs.timestamp
    &&& attributes.suggested_fee_recipient == attrs.suggested_fee_recipient
    &&& attributes.prev_randao == attrs.prev_randao
    &&& attributes.withdrawals@ == (match attrs.withdrawals {
        Some(withdrawals) => withdrawals@,
        None => Seq::empty(),
    })
    &&& attributes.parent_beacon_block_root == attrs.parent_beacon_block_root
    &&& attributes.no_tx_pool == (attrs.no_tx_pool == Some(true))
    &&& attributes.transactions@ == txs
    &&& attributes.gas_limit == attrs.gas_limit
}

/// Whether `envelope` is the envelope of the payload that a builder in the state
/// `state` seals with `parts`: the header's fields and the builder's transactions in
/// the inner payload; the withdrawals of `parts`; no blob gas used and the header's
/// excess blob gas; the builder's fees as the block value; no blobs; and the beacon
/// block root of the attributes once Cancun is active, else zero.
pub open spec fn enveloped(
    state: BuilderState,
    parts: crate::payload_builder::SealedParts,
    envelope: OptimismExecutionPayloadEnvelopeV3,
) -> bool {
    let inner = envelope.execution_payload.payload_inner.payload_inner;
    let blob = crate::chain::blob_fields(
        state.chain_spec.cancun_active(state.attributes.timestamp),
        state.chain_spec.cancun_active(state.parent_block.timestamp),
        state.parent_block,
    );
    &&& inner.parent_hash == state.parent_block.hash
    &&& inner.fee_recipient == state.block_env.coinbase
    &&& inner.state_root == parts.roots.state_root
    &&& inner.receipts_root == parts.roots.receipts_root
    &&& inner.logs_bloom == parts.roots.logs_bloom
    &&& inner.prev_randao == state.attributes.prev_randao
    &&& inner.block_number == state.parent_block.number + 1
    &&& inner.gas_limit == state.block_env.gas_limit.saturated()
    &&& inner.gas_used == state.cumulative_gas_used
    &&& inner.timestamp == state.attributes.timestamp
    &&& inner.extra_data@ == state.extra_data
    &&& inner.base_fee_per_gas.value() == state.block_env.basefee
    &&& inner.transactions@ == state.transactions
    &&& envelope.execution_payload.payload_inner.withdrawals@ == (match parts.withdrawals {
        Some(withdrawals) => withdrawals@,
        None => Seq::empty(),
    })
    &&& envelope.execution_payload.blob_gas_used == 0
    &&& envelope.execution_payload.excess_blob_gas == (match blob.0 {
        Some(excess) => excess,
        None => 0,
    })
    &&& envelope.block_value.value() == state.total_fees
    &&& !envelope.should_override_builder
    &&& envelope.blobs_bundle.commitments@.len() == 0
    &&& envelope.blobs_bundle.proofs@.len() == 0
    &&& envelope.blobs_bundle.blobs@.len() == 0
    &&& envelope.parent_beacon_block_root == (if state.chain_spec.cancun_active(
        state.attributes.timestamp,
    ) {
        match state.attributes.parent_beacon_block_root {
            Some(root) => root,
            None => B256::spec_zero(),
        }
    } else {
        B256::spec_zero()
    })
}

/// The payload that takes the scheduled transactions: the one under construction,
/// where there is exactly one.
pub open spec fn sole_payload(payloads: Map<PayloadId, BuilderState>) -> Option<PayloadId> {
    if payloads.dom().finite() && payloads.dom().len() == 1 {
        Some(payloads.dom().choose())
    } else {
        None
    }
}

/// The nonce table once the sender of a transaction was looked up: a known account
/// keeps its entry; an unknown one gets the nonce that was found.
pub open spec fn nonces_with(nonces: Map<Address, u64>, account: Address, found: u64) -> Map<
    Address,
    u64,
> {
    if nonces.contains_key(account) {
        nonces
    } else {
        nonces.insert(account, found)
    }
}

/// Whether a transaction that was sent in is taken, and why not. `found` is the nonce
/// that the latest state holds for the sender, `None` where the lookup failed; it is
/// read only for a sender without an entry in the nonce table.
pub open spec fn admission_result(
    nonces: Map<Address, u64>,
    decoded: Option<Transaction>,
    found: Option<u64>,
) -> Result<(), EthApiError> {
    match decoded {
        None => Err(EthApiError::InvalidParams(InvalidParams::UndecodableTransaction)),
        Some(tx) => match tx.signer {
            None => Err(EthApiError::TxTypeNotSupported),
            Some(account) => if !nonces.contains_key(account) && found is None {
                Err(EthApiError::Internal)
            } else if tx.nonce == u64::MAX {
                Err(EthApiError::InvalidParams(InvalidParams::NonceTooHigh))
            } else {
                match add_result(nonces_with(nonces, account, found.unwrap_or(0)), tx) {
                    Err(error) => Err(EthApiError::InvalidParams(InvalidParams::Pool(error))),
                    Ok(_) => Ok(()),
                }
            },
        },
    }
}

/// The pool and the nonce table after a transaction was sent in, before anything is
/// drained. Once the sender is known it has an entry in the nonce table, whatever
/// becomes of the transaction; the pool changes as `add_model` says.
pub open spec fn admission_pool(
    pool: PoolState,
    decoded: Option<Transaction>,
    found: Option<u64>,
) -> PoolState {
    match decoded {
        Some(tx) => match tx.signer {
            Some(account) => if !pool.nonces.contains_key(account) && found is None {
                pool
            } else {
                let looked_up = PoolState {
                    nonces: nonces_with(pool.nonces, account, found.unwrap_or(0)),
                    ..pool
                };
                if tx.nonce == u64::MAX {
                    looked_up
                } else {
                    add_model(looked_up, tx)
                }
            },
            None => pool,
        },
        None => pool,
    }
}

/// Whether `admitted` and the pool `after` are what follows from sending in `decoded`
/// while the payloads `payloads` are under construction: with exactly one payload the
/// scheduled transactions are drained for it, in their order; else nothing is drained.
pub open spec fn admitted_as(
    pool: PoolState,
    payloads: Map<PayloadId, BuilderState>,
    decoded: Option<Transaction>,
    found: Option<u64>,
    after: PoolState,
    admitted: Admitted,
) -> bool {
    let taken = admission_pool(pool, decoded, found);
    &&& admitted.tx_hash == decoded->0.hash
    &&& admitted.target == sole_payload(payloads)
    &&& if sole_payload(payloads) is Some {
        admitted.drained@ == taken.scheduled && after == PoolState {
            scheduled: Seq::empty(),
            ..taken
        }
    } else {
        admitted.drained@.len() == 0 && after == taken
    }
}

/// The nonce that a lookup in the latest state gives: the account's nonce, zero for
/// an account that the state does not know, nothing where the lookup failed.
pub open spec fn found_nonce<E>(fetched: Result<Option<u64>, E>) -> Option<u64> {
    match fetched {
        Ok(Some(nonce)) => Some(nonce),
        Ok(None) => Some(0u64),
        Err(_) => None,
    }
}

/// The nonce that a lookup in the latest state gives.
pub fn nonce_found<E>(fetched: Result<Option<u64>, E>) -> (found: Option<u64>)
    ensures
        found == found_nonce(fetched),
{
    match fetched {
        Ok(Some(nonce)) => Some(nonce),
        Ok(None) => Some(0),
        Err(_) => None,
    }
}

/// Whether `sent` and the pool `after` are what sending in `decoded` leads to, given
/// what was found for the sender.
pub open spec fn sent_as(
    pool: PoolState,
    payloads: Map<PayloadId, BuilderState>,
    decoded: Option<Transaction>,
    found: Option<u64>,
    after: PoolState,
    sent: Result<Admitted, EthApiError>,
) -> bool {
    match admission_result(pool.nonces, decoded, found) {
        Err(error) => sent == Err::<Admitted, EthApiError>(error) && after == admission_pool(
            pool,
            decoded,
            found,
        ),
        Ok(_) => sent matches Ok(admitted) && admitted_as(
            pool,
            payloads,
            decoded,
            found,
            after,
            admitted,
        ),
    }
}

/// Whether the payload under `id` holds `tx` as its transaction `i`, with a receipt
/// that holds `receipt`.
pub open spec fn holds_at(
    payloads: Map<PayloadId, BuilderState>,
    id: PayloadId,
    i: int,
    tx: Transaction,
    receipt: crate::transaction::ReceiptView,
) -> bool {
    &&& payloads.contains_key(id)
    &&& 0 <= i < payloads[id].transactions.len()
    &&& i < payloads[id].receipts.len()
    &&& payloads[id].transactions[i] == tx
    &&& payloads[id].receipts[i]@ == receipt
}

/// Whether `count` is the transaction count that follows from what the state holds
/// for an account: its nonce, zero for an account that the state does not know, and
/// the failure where the lookup failed.
pub open spec fn counted<E>(fetched: Result<Option<u64>, E>, count: Result<U256, E>) -> bool {
    match fetched {
        Ok(Some(nonce)) => count matches Ok(n) && n.value() == nonce,
        Ok(None) => count matches Ok(n) && n.value() == 0,
        Err(error) => count == Err::<U256, E>(error),
    }
}

/// The transaction count that follows from what the state holds for an account.
pub fn state_transaction_count<E>(fetched: Result<Option<u64>, E>) -> (count: Result<U256, E>)
    ensures
        counted(fetched, count),
{
    match fetched {
        Ok(Some(nonce)) => Ok(U256::from_u64(nonce)),
        Ok(None) => Ok(U256::from_u64(0)),
        Err(error) => Err(error),
    }
}

/// The balance of an account as the user-facing API answers: what the state holds,
/// zero for an account that the state does not know.
pub fn balance(fetched: Result<Option<U256>, ()>) -> (answer: Result<U256, EthApiError>)
    ensures
        answer == (match fetched {
            Ok(Some(balance)) => Ok::<U256, EthApiError>(balance),
            Ok(None) => Ok::<U256, EthApiError>(U256::spec_zero()),
            Err(_) => Err::<U256, EthApiError>(EthApiError::Internal),
        }),
{
    match fetched {
        Ok(Some(balance)) => Ok(balance),
        Ok(None) => Ok(U256::zero()),
        Err(_) => Err(EthApiError::Internal),
    }
}

/// The number of the latest block as the user-facing API answers: zero where the
/// blockchain knows no latest block.
pub fn block_number(latest: Result<Option<u64>, ()>) -> (answer: Result<U256, EthApiError>)
    ensures
        answer == (match latest {
            Ok(Some(number)) => Ok::<U256, EthApiError>(U256 { l0: number, l1: 0, l2: 0, l3: 0 }),
            Ok(None) => Ok::<U256, EthApiError>(U256::spec_zero()),
            Err(_) => Err::<U256, EthApiError>(EthApiError::Internal),
        }),
{
    match latest {
        Ok(Some(number)) => Ok(U256::from_u64(number)),
        Ok(None) => Ok(U256::zero()),
        Err(_) => Err(EthApiError::Internal),
    }
}

} // verus!
