//! Payload attributes as the consensus layer sends them, and the attributes that a
//! payload builder works from, with the derivation of the payload identifier.

use crate::primitives::{Address, PayloadId, B256};
use crate::transaction::{Transaction, Withdrawal};
use vstd::prelude::*;

verus! {

broadcast use vstd::array::group_array_axioms;

/// What the consensus layer asks of the next block.
#[derive(Debug)]
pub struct RedstonePayloadAttributes {
    pub timestamp: u64,
    pub prev_randao: B256,
    pub suggested_fee_recipient: Address,
    pub withdrawals: Option<Vec<Withdrawal>>,
    pub parent_beacon_block_root: Option<B256>,
    /// Whether the block takes transactions from the pool. The transactions that the
    /// consensus layer forces into the block travel beside the attributes, decoded.
    pub no_tx_pool: Option<bool>,
    pub gas_limit: Option<u64>,
}

/// Why a set of payload attributes was refused.
#[derive(Debug)]
pub enum AttributesError<E> {
    /// The check of the fields that depend on the message version failed.
    VersionSpecific(E),
    /// A rollup chain needs a gas limit in the attributes.
    MissingGasLimit,
}

impl RedstonePayloadAttributes {
    /// The withdrawals as a sequence, if there are any.
    pub open spec fn withdrawals_view(&self) -> Option<Seq<Withdrawal>> {
        match self.withdrawals {
            Some(withdrawals) => Some(withdrawals@),
            None => None,
        }
    }

    /// Whether the attributes are well formed for a chain. `version_specific` is the
    /// result of the check of the fields that depend on the message version: its failure
    /// is handed on. Beyond it, a rollup chain must name a gas limit.
    pub fn ensure_well_formed_attributes<E>(
        &self,
        is_optimism: bool,
        version_specific: Result<(), E>,
    ) -> (checked: Result<(), AttributesError<E>>)
        ensures
            checked == (match version_specific {
                Err(error) => Err::<(), AttributesError<E>>(AttributesError::VersionSpecific(error)),
                Ok(_) => if self.gas_limit is None && is_optimism {
                    Err::<(), AttributesError<E>>(AttributesError::MissingGasLimit)
                } else {
                    Ok::<(), AttributesError<E>>(())
                },
            }),
    {
        match version_specific {
            Err(error) => Err(AttributesError::VersionSpecific(error)),
            Ok(_) => {
                if self.gas_limit.is_none() && is_optimism {
                    Err(AttributesError::MissingGasLimit)
                } else {
                    Ok(())
                }
            },
        }
    }
}

/// The SHA-256 digest of `data`.
pub uninterp spec fn sha256_digest(data: Seq<u8>) -> Seq<u8>;

/// The RLP encoding of a list of withdrawals: the list header, then each withdrawal as
/// the list of its index, validator index, address and amount.
pub uninterp spec fn rlp_withdrawals(withdrawals: Seq<Withdrawal>) -> Seq<u8>;

/// `sha2::Sha256::digest`: the SHA-256 digest of `data`, which has 32 bytes.
#[verifier::external_body]
fn sha256(data: &Vec<u8>) -> (digest: [u8; 32])
    ensures
        digest@ == sha256_digest(data@),
{
    let output = <sha2::Sha256 as sha2::Digest>::digest(data.as_slice());
    let mut digest = [0u8; 32];
    digest.copy_from_slice(output.as_slice());
    digest
}

/// `alloy_rlp::encode` on a `Vec` of `alloy_eips::eip4895::Withdrawal`: the RLP encoding
/// of the list of withdrawals.
#[verifier::external_body]
fn rlp_encode_withdrawals(withdrawals: &Vec<Withdrawal>) -> (encoded: Vec<u8>)
    ensures
        encoded@ == rlp_withdrawals(withdrawals@),
{
    let list: Vec<alloy_eips::eip4895::Withdrawal> = withdrawals.iter().map(
        |w| alloy_eips::eip4895::Withdrawal {
            index: w.index,
            validator_index: w.validator_index,
            address: alloy_primitives::Address::new(w.address.bytes),
            amount: w.amount,
        },
    ).collect();
    alloy_rlp::encode(&list)
}

/// The eight bytes of `v`, most significant first.
pub open spec fn be8(v: u64) -> Seq<u8> {
    seq![
        ((v >> 56) & 0xff) as u8,
        ((v >> 48) & 0xff) as u8,
        ((v >> 40) & 0xff) as u8,
        ((v >> 32) & 0xff) as u8,
        ((v >> 24) & 0xff) as u8,
        ((v >> 16) & 0xff) as u8,
        ((v >> 8) & 0xff) as u8,
        (v & 0xff) as u8,
    ]
}

/// Two numbers with the same eight bytes are equal.
pub proof fn lemma_be8_injective(a: u64, b: u64)
    requires
        be8(a) == be8(b),
    ensures
        a == b,
{
    assert(be8(a)[0] == be8(b)[0]);
    assert(be8(a)[1] == be8(b)[1]);
    assert(be8(a)[2] == be8(b)[2]);
    assert(be8(a)[3] == be8(b)[3]);
    assert(be8(a)[4] == be8(b)[4]);
    assert(be8(a)[5] == be8(b)[5]);
    assert(be8(a)[6] == be8(b)[6]);
    assert(be8(a)[7] == be8(b)[7]);
    assert(((a >> 56) & 0xff) as u8 == ((b >> 56) & 0xff) as u8 && ((a >> 48) & 0xff) as u8 == ((b
        >> 48) & 0xff) as u8 && ((a >> 40) & 0xff) as u8 == ((b >> 40) & 0xff) as u8 && ((a >> 32)
        & 0xff) as u8 == ((b >> 32) & 0xff) as u8 && ((a >> 24) & 0xff) as u8 == ((b >> 24)
        & 0xff) as u8 && ((a >> 16) & 0xff) as u8 == ((b >> 16) & 0xff) as u8 && ((a >> 8)
        & 0xff) as u8 == ((b >> 8) & 0xff) as u8 && (a & 0xff) as u8 == (b & 0xff) as u8 ==> a
        == b) by (bit_vector);
}

/// The hashes of `transactions`, one after the other.
pub open spec fn hashes_bytes(transactions: Seq<Transaction>) -> Seq<u8>
    decreases transactions.len(),
{
    if transactions.len() == 0 {
        Seq::empty()
    } else {
        hashes_bytes(transactions.drop_last()) + transactions.last().hash@
    }
}

/// The part of the preimage that every payload has: the parent hash, the timestamp,
/// the previous randao and the suggested fee recipient.
pub open spec fn preimage_header(parent: B256, attributes: RedstonePayloadAttributes) -> Seq<u8> {
    parent@ + be8(attributes.timestamp) + attributes.prev_randao@
        + attributes.suggested_fee_recipient@
}

/// The part of the preimage for the forced transactions: nothing where the pool is
/// allowed and no transaction is forced; else the flag, the number of transactions in
/// eight bytes, and their hashes.
pub open spec fn preimage_transactions(no_tx_pool: bool, transactions: Seq<Transaction>) -> Seq<u8> {
    if no_tx_pool || transactions.len() > 0 {
        seq![if no_tx_pool { 1u8 } else { 0u8 }] + be8(transactions.len() as u64) + hashes_bytes(
            transactions,
        )
    } else {
        Seq::empty()
    }
}

/// The bytes whose digest names a payload: the header part; the RLP encoding of the
/// withdrawals, if there are any; the parent beacon block root, if there is one; the
/// part for the forced transactions; and the gas limit in eight bytes, if there is one.
pub open spec fn payload_id_preimage(
    parent: B256,
    attributes: RedstonePayloadAttributes,
    transactions: Seq<Transaction>,
) -> Seq<u8> {
    preimage_header(parent, attributes) + (match attributes.withdrawals {
        Some(withdrawals) => rlp_withdrawals(withdrawals@),
        None => Seq::empty(),
    }) + (match attributes.parent_beacon_block_root {
        Some(root) => root@,
        None => Seq::empty(),
    }) + preimage_transactions(
        match attributes.no_tx_pool {
            Some(flag) => flag,
            None => false,
        },
        transactions,
    ) + (match attributes.gas_limit {
        Some(limit) => be8(limit),
        None => Seq::empty(),
    })
}

/// The identifier of the payload with these inputs: the first eight bytes of the
/// SHA-256 digest of the preimage.
pub open spec fn payload_id_spec(
    parent: B256,
    attributes: RedstonePayloadAttributes,
    transactions: Seq<Transaction>,
) -> Seq<u8> {
    sha256_digest(payload_id_preimage(parent, attributes, transactions)).take(8)
}

/// The hashes of two lists of transactions are the same bytes where the lists agree
/// hash by hash.
pub proof fn lemma_hashes_bytes_equal(a: Seq<Transaction>, b: Seq<Transaction>)
    requires
        a.len() == b.len(),
        forall|i: int| 0 <= i < a.len() ==> (#[trigger] a[i]).hash == b[i].hash,
    ensures
        hashes_bytes(a) == hashes_bytes(b),
    decreases a.len(),
{
    if a.len() > 0 {
        assert forall|i: int| 0 <= i < a.drop_last().len() implies (
        #[trigger] a.drop_last()[i]).hash == b.drop_last()[i].hash by {
            assert(a.drop_last()[i] == a[i]);
            assert(b.drop_last()[i] == b[i]);
        }
        lemma_hashes_bytes_equal(a.drop_last(), b.drop_last());
        assert(a[a.len() - 1].hash == b[a.len() - 1].hash);
    }
}

/// The identifier depends on the values alone: the same parent, attributes that hold
/// the same values, and forced transactions with the same hashes in the same order
/// give the same identifier. A missing pool flag counts as "the pool is allowed".
pub proof fn lemma_payload_id_of_equal_inputs(
    parent: B256,
    attributes_a: RedstonePayloadAttributes,
    transactions_a: Seq<Transaction>,
    attributes_b: RedstonePayloadAttributes,
    transactions_b: Seq<Transaction>,
)
    requires
        attributes_a.timestamp == attributes_b.timestamp,
        attributes_a.prev_randao == attributes_b.prev_randao,
        attributes_a.suggested_fee_recipient == attributes_b.suggested_fee_recipient,
        attributes_a.withdrawals_view() == attributes_b.withdrawals_view(),
        attributes_a.parent_beacon_block_root == attributes_b.parent_beacon_block_root,
        attributes_a.no_tx_pool.unwrap_or(false) == attributes_b.no_tx_pool.unwrap_or(false),
        attributes_a.gas_limit == attributes_b.gas_limit,
        transactions_a.len() == transactions_b.len(),
        forall|i: int|
            0 <= i < transactions_a.len() ==> (#[trigger] transactions_a[i]).hash
                == transactions_b[i].hash,
    ensures
        payload_id_preimage(parent, attributes_a, transactions_a) == payload_id_preimage(
            parent,
            attributes_b,
            transactions_b,
        ),
        payload_id_spec(parent, attributes_a, transactions_a) == payload_id_spec(
            parent,
            attributes_b,
            transactions_b,
        ),
{
    lemma_hashes_bytes_equal(transactions_a, transactions_b);
}

/// Payloads with the same preimage agree on the parent hash, the timestamp, the
/// previous randao and the suggested fee recipient.
pub proof fn lemma_preimage_fixes_header(
    parent_a: B256,
    attributes_a: RedstonePayloadAttributes,
    transactions_a: Seq<Transaction>,
    parent_b: B256,
    attributes_b: RedstonePayloadAttributes,
    transactions_b: Seq<Transaction>,
)
    requires
        payload_id_preimage(parent_a, attributes_a, transactions_a) == payload_id_preimage(
            parent_b,
            attributes_b,
            transactions_b,
        ),
    ensures
        parent_a == parent_b,
        attributes_a.timestamp == attributes_b.timestamp,
        attributes_a.prev_randao == attributes_b.prev_randao,
        attributes_a.suggested_fee_recipient == attributes_b.suggested_fee_recipient,
{
    let a = payload_id_preimage(parent_a, attributes_a, transactions_a);
    let b = payload_id_preimage(parent_b, attributes_b, transactions_b);
    let head_a = preimage_header(parent_a, attributes_a);
    let head_b = preimage_header(parent_b, attributes_b);
    assert(head_a.len() == 92 && head_b.len() == 92);
    assert(a.take(92) =~= head_a);
    assert(b.take(92) =~= head_b);
    assert(head_a.subrange(0, 32) =~= parent_a@);
    assert(head_b.subrange(0, 32) =~= parent_b@);
    assert(head_a.subrange(32, 40) =~= be8(attributes_a.timestamp));
    assert(head_b.subrange(32, 40) =~= be8(attributes_b.timestamp));
    assert(head_a.subrange(40, 72) =~= attributes_a.prev_randao@);
    assert(head_b.subrange(40, 72) =~= attributes_b.prev_randao@);
    assert(head_a.subrange(72, 92) =~= attributes_a.suggested_fee_recipient@);
    assert(head_b.subrange(72, 92) =~= attributes_b.suggested_fee_recipient@);
    lemma_be8_injective(attributes_a.timestamp, attributes_b.timestamp);
    assert(parent_a.bytes =~= parent_b.bytes);
    assert(attributes_a.prev_randao.bytes =~= attributes_b.prev_randao.bytes);
    assert(attributes_a.suggested_fee_recipient.bytes =~= attributes_b.suggested_fee_recipient.bytes);
}

/// Appends the bytes of `bytes` to `out`.
fn push_array<const N: usize>(out: &mut Vec<u8>, bytes: &[u8; N])
    ensures
        final(out)@ == old(out)@ + bytes@,
{
    let mut i: usize = 0;
    assert(out@ =~= old(out)@ + bytes@.take(0));
    while i < N
        invariant
            i <= N,
            out@ == old(out)@ + bytes@.take(i as int),
        decreases N - i,
    {
        out.push(bytes[i]);
        assert(bytes@.take(i + 1) =~= bytes@.take(i as int).push(bytes@[i as int]));
        assert(out@ =~= old(out)@ + bytes@.take(i + 1));
        i += 1;
    }
    assert(bytes@.take(N as int) =~= bytes@);
}

/// Appends the bytes of `bytes` to `out`.
fn push_all(out: &mut Vec<u8>, bytes: &Vec<u8>)
    ensures
        final(out)@ == old(out)@ + bytes@,
{
    let mut i: usize = 0;
    assert(out@ =~= old(out)@ + bytes@.take(0));
    while i < bytes.len()
        invariant
            i <= bytes@.len(),
            out@ == old(out)@ + bytes@.take(i as int),
        decreases bytes@.len() - i,
    {
        out.push(bytes[i]);
        assert(bytes@.take(i + 1) =~= bytes@.take(i as int).push(bytes@[i as int]));
        assert(out@ =~= old(out)@ + bytes@.take(i + 1));
        i += 1;
    }
    assert(bytes@.take(bytes@.len() as int) =~= bytes@);
}

/// Appends the eight bytes of `v`, most significant first, to `out`.
fn push_be8(out: &mut Vec<u8>, v: u64)
    ensures
        final(out)@ == old(out)@ + be8(v),
{
    assert(((v >> 56) & 0xff) < 256 && ((v >> 48) & 0xff) < 256 && ((v >> 40) & 0xff) < 256 && ((v
        >> 32) & 0xff) < 256 && ((v >> 24) & 0xff) < 256 && ((v >> 16) & 0xff) < 256 && ((v >> 8)
        & 0xff) < 256 && (v & 0xff) < 256) by (bit_vector);
    out.push(((v >> 56) & 0xff) as u8);
    out.push(((v >> 48) & 0xff) as u8);
    out.push(((v >> 40) & 0xff) as u8);
    out.push(((v >> 32) & 0xff) as u8);
    out.push(((v >> 24) & 0xff) as u8);
    out.push(((v >> 16) & 0xff) as u8);
    out.push(((v >> 8) & 0xff) as u8);
    out.push((v & 0xff) as u8);
    assert(out@ =~= old(out)@ + be8(v));
}

/// The bytes whose digest names the payload with these inputs.
pub fn preimage(
    parent: &B256,
    attributes: &RedstonePayloadAttributes,
    transactions: &Vec<Transaction>,
) -> (bytes: Vec<u8>)
    ensures
        bytes@ == payload_id_preimage(*parent, *attributes, transactions@),
{
    let mut out: Vec<u8> = Vec::new();
    push_array(&mut out, &parent.bytes);
    push_be8(&mut out, attributes.timestamp);
    push_array(&mut out, &attributes.prev_randao.bytes);
    push_array(&mut out, &attributes.suggested_fee_recipient.bytes);
    assert(out@ =~= preimage_header(*parent, *attributes));
    match &attributes.withdrawals {
        Some(withdrawals) => {
            let encoded = rlp_encode_withdrawals(withdrawals);
            push_all(&mut out, &encoded);
        },
        None => {
            assert(out@ =~= out@ + Seq::<u8>::empty());
        },
    }
    match &attributes.parent_beacon_block_root {
        Some(root) => {
            push_array(&mut out, &root.bytes);
        },
        None => {
            assert(out@ =~= out@ + Seq::<u8>::empty());
        },
    }
    let no_tx_pool = match attributes.no_tx_pool {
        Some(flag) => flag,
        None => false,
    };
    let ghost before_transactions = out@;
    if no_tx_pool || transactions.len() > 0 {
        out.push(if no_tx_pool { 1 } else { 0 });
        push_be8(&mut out, transactions.len() as u64);
        let ghost before_hashes = out@;
        let mut i: usize = 0;
        assert(transactions@.take(0) =~= Seq::<Transaction>::empty());
        assert(out@ =~= before_hashes + hashes_bytes(transactions@.take(0)));
        while i < transactions.len()
            invariant
                i <= transactions@.len(),
                out@ == before_hashes + hashes_bytes(transactions@.take(i as int)),
            decreases transactions@.len() - i,
        {
            push_array(&mut out, &transactions[i].hash.bytes);
            proof {
                let longer = transactions@.take(i + 1);
                assert(longer.drop_last() =~= transactions@.take(i as int));
                assert(longer.last() == transactions@[i as int]);
                assert(out@ =~= before_hashes + hashes_bytes(longer));
            }
            i += 1;
        }
        assert(transactions@.take(transactions@.len() as int) =~= transactions@);
        assert(out@ =~= before_transactions + preimage_transactions(no_tx_pool, transactions@));
    } else {
        assert(out@ =~= before_transactions + preimage_transactions(no_tx_pool, transactions@));
    }
    match attributes.gas_limit {
        Some(limit) => {
            push_be8(&mut out, limit);
        },
        None => {
            assert(out@ =~= out@ + Seq::<u8>::empty());
        },
    }
    out
}

/// The identifier that a digest gives: its first eight bytes.
pub fn payload_id_from_digest(digest: &[u8; 32]) -> (id: PayloadId)
    ensures
        id@ == digest@.take(8),
{
    let id = PayloadId {
        bytes: [
            digest[0],
            digest[1],
            digest[2],
            digest[3],
            digest[4],
            digest[5],
            digest[6],
            digest[7],
        ],
    };
    assert(id@ =~= digest@.take(8));
    id
}

/// The identifier of the payload with these inputs. It depends on nothing else: the
/// same parent, attributes and transactions give the same identifier.
pub fn payload_id(
    parent: &B256,
    attributes: &RedstonePayloadAttributes,
    transactions: &Vec<Transaction>,
) -> (id: PayloadId)
    ensures
        id@ == payload_id_spec(*parent, *attributes, transactions@),
{
    let bytes = preimage(parent, attributes, transactions);
    let digest = sha256(&bytes);
    payload_id_from_digest(&digest)
}

/// The attributes that a payload builder works from.
#[derive(Debug)]
pub struct RedstonePayloadBuilderAttributes {
    /// The identifier of the payload.
    pub id: PayloadId,
    /// The hash of the block to build on.
    pub parent: B256,
    pub timestamp: u64,
    pub suggested_fee_recipient: Address,
    pub prev_randao: B256,
    pub withdrawals: Vec<Withdrawal>,
    pub parent_beacon_block_root: Option<B256>,
    /// Whether the block takes no transactions from the pool.
    pub no_tx_pool: bool,
    /// The transactions that the consensus layer forces into the block, in its order.
    pub transactions: Vec<Transaction>,
    pub gas_limit: Option<u64>,
}

impl RedstonePayloadBuilderAttributes {
    /// The builder attributes for a block on `parent`, with the identifier derived from
    /// the parent, the attributes and the forced transactions. Missing withdrawals count
    /// as none, a missing pool flag as "the pool is allowed".
    pub fn try_new(
        parent: B256,
        attributes: RedstonePayloadAttributes,
        transactions: Vec<Transaction>,
    ) -> (built: RedstonePayloadBuilderAttributes)
        ensures
            built.id@ == payload_id_spec(parent, attributes, transactions@),
            built.parent == parent,
            built.timestamp == attributes.timestamp,
            built.suggested_fee_recipient == attributes.suggested_fee_recipient,
            built.prev_randao == attributes.prev_randao,
            built.withdrawals@ == (match attributes.withdrawals {
                Some(withdrawals) => withdrawals@,
                None => Seq::empty(),
            }),
            built.parent_beacon_block_root == attributes.parent_beacon_block_root,
            built.no_tx_pool == (attributes.no_tx_pool == Some(true)),
            built.transactions == transactions,
            built.gas_limit == attributes.gas_limit,
    {
        let id = payload_id(&parent, &attributes, &transactions);
        let no_tx_pool = match attributes.no_tx_pool {
            Some(flag) => flag,
            None => false,
        };
        let withdrawals = match attributes.withdrawals {
            Some(withdrawals) => withdrawals,
            None => Vec::new(),
        };
        RedstonePayloadBuilderAttributes {
            id,
            parent,
            timestamp: attributes.timestamp,
            suggested_fee_recipient: attributes.suggested_fee_recipient,
            prev_randao: attributes.prev_randao,
            withdrawals,
            parent_beacon_block_root: attributes.parent_beacon_block_root,
            no_tx_pool,
            transactions,
            gas_limit: attributes.gas_limit,
        }
    }

    /// The identifier of the payload.
    pub fn payload_id(&self) -> (id: PayloadId)
        ensures
            id == self.id,
    {
        self.id
    }
}

} // verus!
