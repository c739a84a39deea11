//! Transactions, receipts, logs and withdrawals as the sequencer core reads them.

use crate::primitives::{Address, B256};
use vstd::prelude::*;

verus! {

/// The envelope type of a transaction.
#[derive(Clone, Copy, Debug, PartialEq, Eq, Structural)]
pub enum TxType {
    Legacy,
    Eip2930,
    Eip1559,
    Eip4844,
    Deposit,
}

impl TxType {
    /// The type byte of the envelope.
    pub open spec fn spec_type_byte(self) -> u8 {
        match self {
            TxType::Legacy => 0u8,
            TxType::Eip2930 => 1u8,
            TxType::Eip1559 => 2u8,
            TxType::Eip4844 => 3u8,
            TxType::Deposit => 126u8,
        }
    }

    /// The type byte of the envelope.
    #[verifier::when_used_as_spec(spec_type_byte)]
    pub fn type_byte(self) -> (byte: u8)
        ensures
            byte == self.spec_type_byte(),
    {
        match self {
            TxType::Legacy => 0,
            TxType::Eip2930 => 1,
            TxType::Eip1559 => 2,
            TxType::Eip4844 => 3,
            TxType::Deposit => 126,
        }
    }
}

/// Whether a transaction calls an account or creates a contract.
#[derive(Clone, Copy, Debug)]
pub enum TxKind {
    Create,
    Call(Address),
}

/// A decoded, signed transaction: what the pool, the builder and the receipts read of it.
#[derive(Clone, Copy, Debug)]
pub struct Transaction {
    /// The hash of the signed envelope.
    pub hash: B256,
    /// The sender's nonce that the transaction carries.
    pub nonce: u64,
    pub tx_type: TxType,
    /// The sender recovered from the signature; `None` where recovery failed.
    pub signer: Option<Address>,
    pub to: TxKind,
    /// The blob gas that the transaction uses, for a blob transaction.
    pub blob_gas_used: Option<u64>,
}

impl Transaction {
    /// Whether this is a blob transaction.
    pub open spec fn spec_is_blob(&self) -> bool {
        self.tx_type == TxType::Eip4844
    }

    /// Whether this is a blob transaction.
    #[verifier::when_used_as_spec(spec_is_blob)]
    pub fn is_blob(&self) -> (blob: bool)
        ensures
            blob == self.spec_is_blob(),
    {
        self.tx_type == TxType::Eip4844
    }

    /// The blob gas that the transaction uses: none unless it is a blob transaction.
    pub open spec fn spec_blob_gas(&self) -> Option<u64> {
        if self.spec_is_blob() {
            self.blob_gas_used
        } else {
            None
        }
    }

    /// The blob gas that the transaction uses: none unless it is a blob transaction.
    #[verifier::when_used_as_spec(spec_blob_gas)]
    pub fn blob_gas(&self) -> (gas: Option<u64>)
        ensures
            gas == self.spec_blob_gas(),
    {
        if self.is_blob() {
            self.blob_gas_used
        } else {
            None
        }
    }

    /// Whether this is a deposit transaction.
    pub open spec fn spec_is_deposit(&self) -> bool {
        self.tx_type == TxType::Deposit
    }

    /// Whether this is a deposit transaction.
    #[verifier::when_used_as_spec(spec_is_deposit)]
    pub fn is_deposit(&self) -> (deposit: bool)
        ensures
            deposit == self.spec_is_deposit(),
    {
        self.tx_type == TxType::Deposit
    }
}

/// A log that a transaction emitted.
#[derive(Debug)]
pub struct Log {
    pub address: Address,
    pub topics: Vec<B256>,
    pub data: Vec<u8>,
}

/// What a log holds.
pub struct LogView {
    pub address: Address,
    pub topics: Seq<B256>,
    pub data: Seq<u8>,
}

impl View for Log {
    type V = LogView;

    open spec fn view(&self) -> LogView {
        LogView { address: self.address, topics: self.topics@, data: self.data@ }
    }
}

impl Log {
    /// A copy that holds the same address, topics and data.
    pub fn duplicate(&self) -> (copy: Log)
        ensures
            copy@ == self@,
    {
        let mut topics: Vec<B256> = Vec::new();
        let mut i: usize = 0;
        while i < self.topics.len()
            invariant
                i <= self.topics@.len(),
                topics@ == self.topics@.take(i as int),
            decreases self.topics@.len() - i,
        {
            topics.push(self.topics[i]);
            assert(self.topics@.take(i + 1) =~= self.topics@.take(i as int).push(self.topics@[i as int]));
            i += 1;
        }
        let mut data: Vec<u8> = Vec::new();
        let mut j: usize = 0;
        while j < self.data.len()
            invariant
                j <= self.data@.len(),
                data@ == self.data@.take(j as int),
            decreases self.data@.len() - j,
        {
            data.push(self.data[j]);
            assert(self.data@.take(j + 1) =~= self.data@.take(j as int).push(self.data@[j as int]));
            j += 1;
        }
        assert(self.topics@.take(self.topics@.len() as int) =~= self.topics@);
        assert(self.data@.take(self.data@.len() as int) =~= self.data@);
        Log { address: self.address, topics, data }
    }
}

/// What the logs of a list hold, in order.
pub open spec fn logs_view(logs: Seq<Log>) -> Seq<LogView> {
    Seq::new(logs.len(), |i: int| logs[i]@)
}

/// A copy of `logs` that holds the same logs in the same order.
pub fn duplicate_logs(logs: &Vec<Log>) -> (copy: Vec<Log>)
    ensures
        logs_view(copy@) == logs_view(logs@),
{
    let mut copy: Vec<Log> = Vec::new();
    let mut i: usize = 0;
    while i < logs.len()
        invariant
            i <= logs@.len(),
            copy@.len() == i,
            forall|k: int| 0 <= k < i ==> (#[trigger] copy@[k])@ == logs@[k]@,
        decreases logs@.len() - i,
    {
        copy.push(logs[i].duplicate());
        i += 1;
    }
    assert(logs_view(copy@) =~= logs_view(logs@));
    copy
}

/// The receipt of an executed transaction.
#[derive(Debug)]
pub struct Receipt {
    pub tx_type: TxType,
    /// Whether execution succeeded.
    pub success: bool,
    /// The gas used in the block up to and including this transaction.
    pub cumulative_gas_used: u64,
    pub logs: Vec<Log>,
    /// The depositor's nonce before a deposit transaction ran.
    pub deposit_nonce: Option<u64>,
    /// The version of the deposit receipt encoding.
    pub deposit_receipt_version: Option<u64>,
}

/// What a receipt holds.
pub struct ReceiptView {
    pub tx_type: TxType,
    pub success: bool,
    pub cumulative_gas_used: u64,
    pub logs: Seq<LogView>,
    pub deposit_nonce: Option<u64>,
    pub deposit_receipt_version: Option<u64>,
}

impl View for Receipt {
    type V = ReceiptView;

    open spec fn view(&self) -> ReceiptView {
        ReceiptView {
            tx_type: self.tx_type,
            success: self.success,
            cumulative_gas_used: self.cumulative_gas_used,
            logs: logs_view(self.logs@),
            deposit_nonce: self.deposit_nonce,
            deposit_receipt_version: self.deposit_receipt_version,
        }
    }
}

impl Receipt {
    /// A copy that holds the same fields and logs.
    pub fn duplicate(&self) -> (copy: Receipt)
        ensures
            copy@ == self@,
    {
        Receipt {
            tx_type: self.tx_type,
            success: self.success,
            cumulative_gas_used: self.cumulative_gas_used,
            logs: duplicate_logs(&self.logs),
            deposit_nonce: self.deposit_nonce,
            deposit_receipt_version: self.deposit_receipt_version,
        }
    }
}

/// A validator withdrawal from the consensus layer.
#[derive(Clone, Copy, Debug)]
pub struct Withdrawal {
    pub index: u64,
    pub validator_index: u64,
    pub address: Address,
    /// The amount in gwei.
    pub amount: u64,
}

} // verus!
