//! The receipt of a transaction as the user-facing API hands it out.

use crate::block::Bloom;
use crate::chain::{blob_gasprice, calc_blob_gasprice, MAX_PRICED_EXCESS_BLOB_GAS};
use crate::engine::EthApiError;
use crate::primitives::{Address, B256};
use crate::transaction::{Log, LogView, Receipt, Transaction, TxKind};
use vstd::prelude::*;

verus! {

/// Where a transaction stands in the chain.
#[derive(Clone, Copy, Debug)]
pub struct TransactionMeta {
    pub tx_hash: B256,
    /// The position of the transaction in its block.
    pub index: u64,
    pub block_hash: B256,
    pub block_number: u64,
    pub base_fee: Option<u64>,
    pub excess_blob_gas: Option<u64>,
    pub timestamp: u64,
}

impl Default for TransactionMeta {
    fn default() -> (meta: TransactionMeta)
        ensures
            meta == (TransactionMeta {
                tx_hash: B256::spec_zero(),
                index: 0,
                block_hash: B256::spec_zero(),
                block_number: 0,
                base_fee: None,
                excess_blob_gas: None,
                timestamp: 0,
            }),
    {
        TransactionMeta {
            tx_hash: B256::zero(),
            index: 0,
            block_hash: B256::zero(),
            block_number: 0,
            base_fee: None,
            excess_blob_gas: None,
            timestamp: 0,
        }
    }
}

/// A log with its place in the chain.
#[derive(Debug)]
pub struct RpcLog {
    pub inner: Log,
    pub block_hash: Option<B256>,
    pub block_number: Option<u64>,
    pub block_timestamp: Option<u64>,
    pub transaction_hash: Option<B256>,
    pub transaction_index: Option<u64>,
    /// The position of the log among the logs of its transaction.
    pub log_index: Option<u64>,
    pub removed: bool,
}

/// The receipt of a transaction, of whatever type.
#[derive(Debug)]
pub struct AnyTransactionReceipt {
    /// Whether the transaction succeeded.
    pub status: bool,
    pub cumulative_gas_used: u128,
    pub logs: Vec<RpcLog>,
    pub logs_bloom: Bloom,
    /// The type byte of the transaction.
    pub tx_type: u8,
    pub transaction_hash: B256,
    pub transaction_index: Option<u64>,
    pub block_hash: Option<B256>,
    pub block_number: Option<u64>,
    pub from: Address,
    /// The account that was called, for a call.
    pub to: Option<Address>,
    pub gas_used: u128,
    /// The address of the contract that was created, for a creation.
    pub contract_address: Option<Address>,
    pub effective_gas_price: u128,
    pub state_root: Option<B256>,
    pub blob_gas_price: Option<u128>,
    pub blob_gas_used: Option<u128>,
}

/// The address of the contract that `sender` creates with a transaction of the nonce
/// `nonce`.
pub uninterp spec fn created_address(sender: Seq<u8>, nonce: u64) -> Seq<u8>;

/// `alloy_primitives::Address::create`: the address of the contract that an account
/// creates with a transaction of a given nonce.
#[verifier::external_body]
fn create_address(sender: &Address, nonce: u64) -> (created: Address)
    ensures
        created@ == created_address(sender@, nonce),
{
    let created = alloy_primitives::Address::new(sender.bytes).create(nonce);
    Address { bytes: created.into_array() }
}

/// Whether `log` is `inner` at the place `index` among the logs of the transaction
/// that `meta` describes.
pub open spec fn log_placed(log: RpcLog, inner: LogView, meta: TransactionMeta, index: int) -> bool {
    &&& log.inner@ == inner
    &&& log.block_hash == Some(meta.block_hash)
    &&& log.block_number == Some(meta.block_number)
    &&& log.block_timestamp == Some(meta.timestamp)
    &&& log.transaction_hash == Some(meta.tx_hash)
    &&& log.transaction_index == Some(meta.index)
    &&& log.log_index == Some(index as u64)
    &&& !log.removed
}

/// The gas that the receipt reports for the transaction itself. The receipts of the
/// earlier transactions of the block are not consulted: for the first transaction of a
/// block it is the cumulative gas, for any other it is zero.
pub open spec fn reported_gas(meta: TransactionMeta, receipt: Receipt) -> u128 {
    if meta.index == 0 {
        receipt.cumulative_gas_used as u128
    } else {
        0
    }
}

/// The price of blob gas in the receipt: there for a blob transaction in a block that
/// has an excess blob gas.
pub open spec fn reported_blob_gas_price(tx: Transaction, meta: TransactionMeta) -> Option<u128> {
    if tx.blob_gas() is Some && meta.excess_blob_gas is Some {
        Some(blob_gasprice(meta.excess_blob_gas->0))
    } else {
        None
    }
}

/// Whether `made` is the receipt of `tx` as the user-facing API hands it out.
pub open spec fn receipt_made(
    hash: B256,
    tx: Transaction,
    meta: TransactionMeta,
    receipt: Receipt,
    logs_bloom: Bloom,
    effective_gas_price: u128,
    made: AnyTransactionReceipt,
) -> bool {
    &&& made.status == receipt.success
    &&& made.cumulative_gas_used == receipt.cumulative_gas_used
    &&& made.logs@.len() == receipt.logs@.len()
    &&& forall|i: int|
        0 <= i < made.logs@.len() ==> log_placed(#[trigger] made.logs@[i], receipt.logs@[i]@, meta, i)
    &&& made.logs_bloom == logs_bloom
    &&& made.tx_type == tx.tx_type.type_byte()
    &&& made.transaction_hash == hash
    &&& made.transaction_index == Some(meta.index)
    &&& made.block_hash == Some(meta.block_hash)
    &&& made.block_number == Some(meta.block_number)
    &&& made.from == tx.signer->0
    &&& made.to == (match tx.to {
        TxKind::Call(address) => Some(address),
        TxKind::Create => None,
    })
    &&& made.gas_used == reported_gas(meta, receipt)
    &&& match tx.to {
        TxKind::Create => made.contract_address matches Some(created) && created@
            == created_address((tx.signer->0)@, tx.nonce),
        TxKind::Call(_) => made.contract_address is None,
    }
    &&& made.effective_gas_price == effective_gas_price
    &&& made.state_root is None
    &&& made.blob_gas_price == reported_blob_gas_price(tx, meta)
    &&& made.blob_gas_used == (match tx.blob_gas() {
        Some(gas) => Some(gas as u128),
        None => None,
    })
}

/// Makes the receipt of `transaction` as the user-facing API hands it out, from the
/// stored receipt, the transaction's place in the chain, the bloom of the receipt's
/// logs and the gas price that the transaction paid.
///
/// It fails for a transaction without a recoverable signer. The blob gas price is
/// computed for an excess blob gas of at most `MAX_PRICED_EXCESS_BLOB_GAS`.
pub fn make_any_transaction_receipt(
    hash: B256,
    transaction: Transaction,
    meta: TransactionMeta,
    receipt: Receipt,
    logs_bloom: Bloom,
    effective_gas_price: u128,
) -> (made: Result<AnyTransactionReceipt, EthApiError>)
    requires
        transaction.blob_gas() is Some ==> (meta.excess_blob_gas matches Some(excess) ==> excess
            <= MAX_PRICED_EXCESS_BLOB_GAS),
    ensures
        transaction.signer is None ==> made == Err::<AnyTransactionReceipt, EthApiError>(
            EthApiError::InvalidTransactionSignature,
        ),
        transaction.signer is Some ==> (made matches Ok(r) && receipt_made(
            hash,
            transaction,
            meta,
            receipt,
            logs_bloom,
            effective_gas_price,
            r,
        )),
{
    let from = match transaction.signer {
        Some(from) => from,
        None => {
            return Err(EthApiError::InvalidTransactionSignature);
        },
    };
    let gas_used: u64 = if meta.index == 0 {
        receipt.cumulative_gas_used
    } else {
        0
    };
    let blob_gas_used = transaction.blob_gas();
    let blob_gas_price = match blob_gas_used {
        Some(_) => match meta.excess_blob_gas {
            Some(excess) => Some(calc_blob_gasprice(excess)),
            None => None,
        },
        None => None,
    };
    let Receipt {
        tx_type: _,
        success,
        cumulative_gas_used,
        logs: receipt_logs,
        deposit_nonce: _,
        deposit_receipt_version: _,
    } = receipt;
    let ghost all_logs = receipt_logs@;
    let mut logs: Vec<RpcLog> = Vec::new();
    for log in it: receipt_logs
        invariant
            it.seq() == all_logs,
            logs@.len() == it.index(),
            forall|i: int|
                0 <= i < logs@.len() ==> log_placed(#[trigger] logs@[i], all_logs[i]@, meta, i),
    {
        let tx_log_idx = logs.len();
        logs.push(
            RpcLog {
                inner: log,
                block_hash: Some(meta.block_hash),
                block_number: Some(meta.block_number),
                block_timestamp: Some(meta.timestamp),
                transaction_hash: Some(meta.tx_hash),
                transaction_index: Some(meta.index),
                log_index: Some(tx_log_idx as u64),
                removed: false,
            },
        );
    }
    let (to, contract_address) = match transaction.to {
        TxKind::Create => (None, Some(create_address(&from, transaction.nonce))),
        TxKind::Call(address) => (Some(address), None),
    };
    Ok(
        AnyTransactionReceipt {
            status: success,
            cumulative_gas_used: cumulative_gas_used as u128,
            logs,
            logs_bloom,
            tx_type: transaction.tx_type.type_byte(),
            transaction_hash: hash,
            transaction_index: Some(meta.index),
            block_hash: Some(meta.block_hash),
            block_number: Some(meta.block_number),
            from,
            to,
            gas_used: gas_used as u128,
            contract_address,
            effective_gas_price,
            state_root: None,
            blob_gas_price,
            blob_gas_used: match blob_gas_used {
                Some(gas) => Some(gas as u128),
                None => None,
            },
        },
    )
}

} // verus!
