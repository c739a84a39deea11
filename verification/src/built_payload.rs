//! The sealed result of a build, and the envelope in which it goes back to the
//! consensus layer.

use crate::attributes::RedstonePayloadBuilderAttributes;
use crate::block::{blob_gas_total, Bloom, SealedBlock};
use crate::chain::ChainSpec;
use crate::primitives::{Address, PayloadId, B256};
use crate::transaction::{Transaction, Withdrawal};
use crate::u256::U256;
use vstd::prelude::*;

verus! {

/// The blobs of a blob transaction with their commitments and proofs.
#[derive(Debug)]
pub struct BlobTransactionSidecar {
    pub blobs: Vec<Vec<u8>>,
    pub commitments: Vec<Vec<u8>>,
    pub proofs: Vec<Vec<u8>>,
}

/// A payload that was built: the sealed block with what it earns and where it came
/// from.
#[derive(Debug)]
pub struct RedstoneBuiltPayload {
    /// The identifier of the payload.
    pub id: PayloadId,
    /// The built block.
    pub block: SealedBlock,
    /// The fees of the block.
    pub fees: U256,
    /// The blobs, proofs and commitments in the block; none before Cancun.
    pub sidecars: Vec<BlobTransactionSidecar>,
    /// The rollup's chain.
    pub chain_spec: ChainSpec,
    /// The attributes that the payload was built from.
    pub attributes: RedstonePayloadBuilderAttributes,
}

impl RedstoneBuiltPayload {
    /// The built block.
    pub fn block(&self) -> (block: &SealedBlock)
        ensures
            *block == self.block,
    {
        &self.block
    }

    /// The fees collected for the built block.
    pub fn fees(&self) -> (fees: U256)
        ensures
            fees == self.fees,
    {
        self.fees
    }
}

/// The first version of the execution payload.
#[derive(Debug)]
pub struct ExecutionPayloadV1 {
    pub parent_hash: B256,
    pub fee_recipient: Address,
    pub state_root: B256,
    pub receipts_root: B256,
    pub logs_bloom: Bloom,
    pub prev_randao: B256,
    pub block_number: u64,
    pub gas_limit: u64,
    pub gas_used: u64,
    pub timestamp: u64,
    pub extra_data: Vec<u8>,
    pub base_fee_per_gas: U256,
    pub block_hash: B256,
    /// The transactions of the block, in order.
    pub transactions: Vec<Transaction>,
}

/// The second version: the first with the withdrawals.
#[derive(Debug)]
pub struct ExecutionPayloadV2 {
    pub payload_inner: ExecutionPayloadV1,
    pub withdrawals: Vec<Withdrawal>,
}

/// The third version: the second with the blob gas fields.
#[derive(Debug)]
pub struct ExecutionPayloadV3 {
    pub payload_inner: ExecutionPayloadV2,
    pub blob_gas_used: u64,
    pub excess_blob_gas: u64,
}

/// The blobs of a block with their commitments and proofs.
#[derive(Debug)]
pub struct BlobsBundleV1 {
    pub commitments: Vec<Vec<u8>>,
    pub proofs: Vec<Vec<u8>>,
    pub blobs: Vec<Vec<u8>>,
}

/// What `engine_getPayloadV3` answers.
#[derive(Debug)]
pub struct OptimismExecutionPayloadEnvelopeV3 {
    pub execution_payload: ExecutionPayloadV3,
    /// The fees that the block pays to its producer.
    pub block_value: U256,
    pub blobs_bundle: BlobsBundleV1,
    pub should_override_builder: bool,
    pub parent_beacon_block_root: B256,
}

/// The commitments of `sidecars`, one sidecar after the other.
pub open spec fn all_commitments(sidecars: Seq<BlobTransactionSidecar>) -> Seq<Vec<u8>>
    decreases sidecars.len(),
{
    if sidecars.len() == 0 {
        Seq::empty()
    } else {
        all_commitments(sidecars.drop_last()) + sidecars.last().commitments@
    }
}

/// The proofs of `sidecars`, one sidecar after the other.
pub open spec fn all_proofs(sidecars: Seq<BlobTransactionSidecar>) -> Seq<Vec<u8>>
    decreases sidecars.len(),
{
    if sidecars.len() == 0 {
        Seq::empty()
    } else {
        all_proofs(sidecars.drop_last()) + sidecars.last().proofs@
    }
}

/// The blobs of `sidecars`, one sidecar after the other.
pub open spec fn all_blobs(sidecars: Seq<BlobTransactionSidecar>) -> Seq<Vec<u8>>
    decreases sidecars.len(),
{
    if sidecars.len() == 0 {
        Seq::empty()
    } else {
        all_blobs(sidecars.drop_last()) + sidecars.last().blobs@
    }
}

/// The bundle of all that `sidecars` hold, in their order.
pub fn blobs_bundle(sidecars: Vec<BlobTransactionSidecar>) -> (bundle: BlobsBundleV1)
    ensures
        bundle.commitments@ == all_commitments(sidecars@),
        bundle.proofs@ == all_proofs(sidecars@),
        bundle.blobs@ == all_blobs(sidecars@),
{
    let ghost all = sidecars@;
    let mut commitments: Vec<Vec<u8>> = Vec::new();
    let mut proofs: Vec<Vec<u8>> = Vec::new();
    let mut blobs: Vec<Vec<u8>> = Vec::new();
    assert(all.take(0) =~= Seq::<BlobTransactionSidecar>::empty());
    for sidecar in it: sidecars
        invariant
            it.seq() == all,
            commitments@ == all_commitments(all.take(it.index() as int)),
            proofs@ == all_proofs(all.take(it.index() as int)),
            blobs@ == all_blobs(all.take(it.index() as int)),
    {
        let mut sidecar = sidecar;
        proof {
            let longer = all.take(it.index() + 1);
            assert(longer.drop_last() =~= all.take(it.index() as int));
            assert(longer.last() == sidecar);
        }
        commitments.append(&mut sidecar.commitments);
        proofs.append(&mut sidecar.proofs);
        blobs.append(&mut sidecar.blobs);
    }
    assert(all.take(all.len() as int) =~= all);
    BlobsBundleV1 { commitments, proofs, blobs }
}

/// The beacon block root in the envelope: that of the attributes once Cancun is
/// active, else zero.
pub open spec fn envelope_beacon_root(
    chain_spec: ChainSpec,
    attributes: RedstonePayloadBuilderAttributes,
) -> B256 {
    if chain_spec.cancun_active(attributes.timestamp) {
        match attributes.parent_beacon_block_root {
            Some(root) => root,
            None => B256::spec_zero(),
        }
    } else {
        B256::spec_zero()
    }
}

/// The inner payload of a block: what the header and the body say, field by field.
pub open spec fn payload_v1(block: SealedBlock) -> ExecutionPayloadV1 {
    ExecutionPayloadV1 {
        parent_hash: block.header.parent_hash,
        fee_recipient: block.header.beneficiary,
        state_root: block.header.state_root,
        receipts_root: block.header.receipts_root,
        logs_bloom: block.header.logs_bloom,
        prev_randao: block.header.mix_hash,
        block_number: block.header.number,
        gas_limit: block.header.gas_limit,
        gas_used: block.header.gas_used,
        timestamp: block.header.timestamp,
        extra_data: block.header.extra_data,
        base_fee_per_gas: U256 {
            l0: match block.header.base_fee_per_gas {
                Some(fee) => fee,
                None => 0,
            },
            l1: 0,
            l2: 0,
            l3: 0,
        },
        block_hash: block.hash,
        transactions: block.body,
    }
}

/// The payload, or its second version where the block has withdrawals.
#[derive(Debug)]
pub enum ExecutionPayloadFieldV2 {
    V1(ExecutionPayloadV1),
    V2(ExecutionPayloadV2),
}

/// What `engine_getPayloadV2` answers.
#[derive(Debug)]
pub struct ExecutionPayloadEnvelopeV2 {
    pub execution_payload: ExecutionPayloadFieldV2,
    /// The fees that the block pays to its producer.
    pub block_value: U256,
}

/// The first version of the payload of a block: what the header and the body say.
pub fn block_to_payload_v1(block: SealedBlock) -> (payload: ExecutionPayloadV1)
    ensures
        payload == payload_v1(block),
{
    let SealedBlock { header, hash, body, ommers: _, withdrawals: _ } = block;
    ExecutionPayloadV1 {
        parent_hash: header.parent_hash,
        fee_recipient: header.beneficiary,
        state_root: header.state_root,
        receipts_root: header.receipts_root,
        logs_bloom: header.logs_bloom,
        prev_randao: header.mix_hash,
        block_number: header.number,
        gas_limit: header.gas_limit,
        gas_used: header.gas_used,
        timestamp: header.timestamp,
        extra_data: header.extra_data,
        base_fee_per_gas: U256::from_u64(
            match header.base_fee_per_gas {
                Some(fee) => fee,
                None => 0,
            },
        ),
        block_hash: hash,
        transactions: body,
    }
}

/// The second envelope of a built payload: the block value is the payload's fees; the
/// payload is of the second version, with the block's withdrawals, where the block has
/// any, else of the first.
pub fn envelope_v2(payload: RedstoneBuiltPayload) -> (envelope: ExecutionPayloadEnvelopeV2)
    ensures
        envelope.block_value == payload.fees,
        payload.block.withdrawals matches Some(withdrawals) ==> envelope.execution_payload
            == ExecutionPayloadFieldV2::V2(
            ExecutionPayloadV2 { payload_inner: payload_v1(payload.block), withdrawals },
        ),
        payload.block.withdrawals is None ==> envelope.execution_payload
            == ExecutionPayloadFieldV2::V1(payload_v1(payload.block)),
{
    let RedstoneBuiltPayload { id: _, block, fees, sidecars: _, chain_spec: _, attributes: _ } =
        payload;
    let SealedBlock { header, hash, body, ommers, withdrawals } = block;
    let inner = block_to_payload_v1(SealedBlock { header, hash, body, ommers, withdrawals: None });
    let execution_payload = match withdrawals {
        Some(withdrawals) => ExecutionPayloadFieldV2::V2(
            ExecutionPayloadV2 { payload_inner: inner, withdrawals },
        ),
        None => ExecutionPayloadFieldV2::V1(inner),
    };
    ExecutionPayloadEnvelopeV2 { execution_payload, block_value: fees }
}

/// The envelope of a built payload.
///
/// The inner payload is the block, field by field; the second version adds the
/// block's withdrawals, none where the block has none; the third adds the blob gas
/// that the block's transactions use and the header's excess blob gas, zero where it is
/// missing. The block value is the payload's fees, and the builder is never overridden.
pub fn envelope(payload: RedstoneBuiltPayload) -> (envelope: OptimismExecutionPayloadEnvelopeV3)
    requires
        blob_gas_total(payload.block.body@) <= u64::MAX,
    ensures
        envelope.execution_payload.payload_inner.payload_inner == payload_v1(payload.block),
        envelope.execution_payload.payload_inner.withdrawals@ == (match payload.block.withdrawals {
            Some(withdrawals) => withdrawals@,
            None => Seq::empty(),
        }),
        envelope.execution_payload.blob_gas_used == blob_gas_total(payload.block.body@),
        envelope.execution_payload.excess_blob_gas == (match payload.block.header.excess_blob_gas {
            Some(excess) => excess,
            None => 0,
        }),
        envelope.block_value == payload.fees,
        !envelope.should_override_builder,
        envelope.blobs_bundle.commitments@ == all_commitments(payload.sidecars@),
        envelope.blobs_bundle.proofs@ == all_proofs(payload.sidecars@),
        envelope.blobs_bundle.blobs@ == all_blobs(payload.sidecars@),
        envelope.parent_beacon_block_root == envelope_beacon_root(
            payload.chain_spec,
            payload.attributes,
        ),
{
    let RedstoneBuiltPayload { id: _, block, fees, sidecars, chain_spec, attributes } = payload;
    let parent_beacon_block_root = if chain_spec.is_cancun_active_at_timestamp(
        attributes.timestamp,
    ) {
        match attributes.parent_beacon_block_root {
            Some(root) => root,
            None => B256::zero(),
        }
    } else {
        B256::zero()
    };
    let blob_gas_used = block.blob_gas_used();
    let SealedBlock { header, hash, body, ommers: _, withdrawals } = block;
    let withdrawals = match withdrawals {
        Some(withdrawals) => withdrawals,
        None => Vec::new(),
    };
    let payload_inner = ExecutionPayloadV1 {
        parent_hash: header.parent_hash,
        fee_recipient: header.beneficiary,
        state_root: header.state_root,
        receipts_root: header.receipts_root,
        logs_bloom: header.logs_bloom,
        prev_randao: header.mix_hash,
        block_number: header.number,
        gas_limit: header.gas_limit,
        gas_used: header.gas_used,
        timestamp: header.timestamp,
        extra_data: header.extra_data,
        base_fee_per_gas: U256::from_u64(
            match header.base_fee_per_gas {
                Some(fee) => fee,
                None => 0,
            },
        ),
        block_hash: hash,
        transactions: body,
    };
    let payload_inner = ExecutionPayloadV2 { payload_inner, withdrawals };
    let execution_payload = ExecutionPayloadV3 {
        payload_inner,
        blob_gas_used,
        excess_blob_gas: match header.excess_blob_gas {
            Some(excess) => excess,
            None => 0,
        },
    };
    OptimismExecutionPayloadEnvelopeV3 {
        execution_payload,
        block_value: fees,
        should_override_builder: false,
        blobs_bundle: blobs_bundle(sidecars),
        parent_beacon_block_root,
    }
}

} // verus!
