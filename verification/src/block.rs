//! Blocks: the header that the payload builder assembles, and the sealed block that a
//! built payload carries.

use crate::primitives::{Address, B256};
use crate::transaction::{Transaction, Withdrawal};
use crate::u256::U256;
use vstd::prelude::*;

verus! {

/// The bloom filter over the logs of a block.
#[derive(Clone, Copy, Debug)]
pub struct Bloom {
    pub bytes: [u8; 256],
}

/// The nonce in the header of every block since the merge.
pub const BEACON_NONCE: u64 = 0;

/// The hash of an empty list of ommers.
pub open spec fn empty_ommer_root() -> B256 {
    B256 {
        bytes: [
            0x1du8,
            0xccu8,
            0x4du8,
            0xe8u8,
            0xdeu8,
            0xc7u8,
            0x5du8,
            0x7au8,
            0xabu8,
            0x85u8,
            0xb5u8,
            0x67u8,
            0xb6u8,
            0xccu8,
            0xd4u8,
            0x1au8,
            0xd3u8,
            0x12u8,
            0x45u8,
            0x1bu8,
            0x94u8,
            0x8au8,
            0x74u8,
            0x13u8,
            0xf0u8,
            0xa1u8,
            0x42u8,
            0xfdu8,
            0x40u8,
            0xd4u8,
            0x93u8,
            0x47u8,
        ],
    }
}

/// The hash of an empty list of ommers.
#[verifier::when_used_as_spec(empty_ommer_root)]
pub fn empty_ommer_root_hash() -> (hash: B256)
    ensures
        hash == empty_ommer_root(),
{
    B256 {
        bytes: [
            0x1d,
            0xcc,
            0x4d,
            0xe8,
            0xde,
            0xc7,
            0x5d,
            0x7a,
            0xab,
            0x85,
            0xb5,
            0x67,
            0xb6,
            0xcc,
            0xd4,
            0x1a,
            0xd3,
            0x12,
            0x45,
            0x1b,
            0x94,
            0x8a,
            0x74,
            0x13,
            0xf0,
            0xa1,
            0x42,
            0xfd,
            0x40,
            0xd4,
            0x93,
            0x47,
        ],
    }
}

/// The header of a block.
#[derive(Debug)]
pub struct Header {
    pub parent_hash: B256,
    pub ommers_hash: B256,
    pub beneficiary: Address,
    pub state_root: B256,
    pub transactions_root: B256,
    pub receipts_root: B256,
    pub withdrawals_root: Option<B256>,
    pub logs_bloom: Bloom,
    pub difficulty: U256,
    pub number: u64,
    pub gas_limit: u64,
    pub gas_used: u64,
    pub timestamp: u64,
    pub mix_hash: B256,
    pub nonce: u64,
    pub base_fee_per_gas: Option<u64>,
    pub blob_gas_used: Option<u64>,
    pub excess_blob_gas: Option<u64>,
    pub parent_beacon_block_root: Option<B256>,
    pub extra_data: Vec<u8>,
}

/// A block with the hash that it was sealed with.
#[derive(Debug)]
pub struct SealedBlock {
    pub header: Header,
    /// The hash of the header.
    pub hash: B256,
    /// The transactions of the block, in order.
    pub body: Vec<Transaction>,
    pub ommers: Vec<Header>,
    pub withdrawals: Option<Vec<Withdrawal>>,
}

/// The blob gas that the transactions of `body` use together.
pub open spec fn blob_gas_total(body: Seq<Transaction>) -> int
    decreases body.len(),
{
    if body.len() == 0 {
        0
    } else {
        blob_gas_total(body.drop_last()) + (match body.last().blob_gas() {
            Some(gas) => gas as int,
            None => 0,
        })
    }
}

/// A body without blob transactions uses no blob gas.
pub proof fn lemma_no_blobs_no_blob_gas(body: Seq<Transaction>)
    requires
        forall|i: int| 0 <= i < body.len() ==> !(#[trigger] body[i]).is_blob(),
    ensures
        blob_gas_total(body) == 0,
    decreases body.len(),
{
    if body.len() > 0 {
        assert(!body[body.len() - 1].is_blob());
        assert forall|i: int| 0 <= i < body.drop_last().len() implies !(
        #[trigger] body.drop_last()[i]).is_blob() by {
            assert(body.drop_last()[i] == body[i]);
        }
        lemma_no_blobs_no_blob_gas(body.drop_last());
    }
}

/// The blob gas of a part of the body is at most that of all of it.
pub proof fn lemma_blob_gas_prefix(body: Seq<Transaction>, n: int)
    requires
        0 <= n <= body.len(),
    ensures
        0 <= blob_gas_total(body.take(n)) <= blob_gas_total(body),
    decreases body.len(),
{
    if n == body.len() {
        assert(body.take(n) =~= body);
        if n > 0 {
            assert(body.drop_last() =~= body.take(n - 1));
            lemma_blob_gas_prefix(body.drop_last(), n - 1);
            assert(body.drop_last().take(n - 1) =~= body.drop_last());
        }
    } else {
        assert(body.drop_last().take(n) =~= body.take(n));
        lemma_blob_gas_prefix(body.drop_last(), n);
    }
}

impl SealedBlock {
    /// The blob gas that the transactions of the block use together.
    pub fn blob_gas_used(&self) -> (total: u64)
        requires
            blob_gas_total(self.body@) <= u64::MAX,
        ensures
            total == blob_gas_total(self.body@),
    {
        let mut total: u64 = 0;
        let mut i: usize = 0;
        while i < self.body.len()
            invariant
                i <= self.body@.len(),
                total == blob_gas_total(self.body@.take(i as int)),
                blob_gas_total(self.body@) <= u64::MAX,
            decreases self.body@.len() - i,
        {
            proof {
                let longer = self.body@.take(i + 1);
                assert(longer.drop_last() =~= self.body@.take(i as int));
                assert(longer.last() == self.body@[i as int]);
                lemma_blob_gas_prefix(self.body@, i + 1);
            }
            match self.body[i].blob_gas() {
                Some(gas) => {
                    total = total + gas;
                },
                None => {},
            }
            i += 1;
        }
        assert(self.body@.take(self.body@.len() as int) =~= self.body@);
        total
    }
}

} // verus!
