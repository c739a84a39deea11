//! What the sequencer core reads of a chain: its identity, its fork schedule, the
//! blocks it builds on, and the blob gas accounting between a block and its parent.

use crate::primitives::{Address, B256};
use crate::u256::U256;
use vstd::prelude::*;

verus! {

/// The forks that change how a block is built.
#[derive(Clone, Copy, Debug, PartialEq, Eq, Structural)]
pub enum Hardfork {
    Regolith,
    Canyon,
    Cancun,
}

/// The identity of a chain and the timestamps from which its forks are active. A fork
/// without a timestamp is never active.
#[derive(Clone, Copy, Debug)]
pub struct ChainSpec {
    pub chain_id: u64,
    pub genesis_hash: B256,
    /// Whether this is a rollup chain.
    pub optimism: bool,
    pub regolith_time: Option<u64>,
    pub canyon_time: Option<u64>,
    pub cancun_time: Option<u64>,
}

impl ChainSpec {
    /// The timestamp from which `fork` is active, if it is scheduled.
    pub open spec fn activation(&self, fork: Hardfork) -> Option<u64> {
        match fork {
            Hardfork::Regolith => self.regolith_time,
            Hardfork::Canyon => self.canyon_time,
            Hardfork::Cancun => self.cancun_time,
        }
    }

    /// Whether `fork` is active in a block with the timestamp `timestamp`.
    pub open spec fn fork_active(&self, fork: Hardfork, timestamp: u64) -> bool {
        self.activation(fork) matches Some(time) && time <= timestamp
    }

    /// Whether `fork` is active in a block with the timestamp `timestamp`.
    #[verifier::when_used_as_spec(fork_active)]
    pub fn is_fork_active_at_timestamp(&self, fork: Hardfork, timestamp: u64) -> (active: bool)
        ensures
            active == self.fork_active(fork, timestamp),
    {
        let activation = match fork {
            Hardfork::Regolith => self.regolith_time,
            Hardfork::Canyon => self.canyon_time,
            Hardfork::Cancun => self.cancun_time,
        };
        match activation {
            Some(time) => time <= timestamp,
            None => false,
        }
    }

    /// Whether Cancun is active in a block with the timestamp `timestamp`.
    pub open spec fn cancun_active(&self, timestamp: u64) -> bool {
        self.fork_active(Hardfork::Cancun, timestamp)
    }

    /// Whether Cancun is active in a block with the timestamp `timestamp`.
    #[verifier::when_used_as_spec(cancun_active)]
    pub fn is_cancun_active_at_timestamp(&self, timestamp: u64) -> (active: bool)
        ensures
            active == self.cancun_active(timestamp),
    {
        self.is_fork_active_at_timestamp(Hardfork::Cancun, timestamp)
    }

    /// The chain's identifier.
    pub fn chain_id(&self) -> (id: u64)
        ensures
            id == self.chain_id,
    {
        self.chain_id
    }
}

/// The environment in which the transactions of a block execute.
#[derive(Clone, Copy, Debug)]
pub struct BlockEnv {
    pub number: u64,
    pub coinbase: Address,
    pub gas_limit: U256,
    pub basefee: u64,
}

/// The sealed block that a payload is built on: its hash and what its header says.
#[derive(Clone, Copy, Debug)]
pub struct ParentBlock {
    pub hash: B256,
    pub number: u64,
    pub timestamp: u64,
    pub excess_blob_gas: Option<u64>,
    pub blob_gas_used: Option<u64>,
}

/// The blob gas that a block may use before its successor's excess grows.
pub const TARGET_BLOB_GAS_PER_BLOCK: u64 = 393_216;

/// The excess blob gas of a block whose parent had the excess `parent_excess` and used
/// `parent_used`: what the two exceed the target by, and zero below the target.
pub open spec fn next_excess_blob_gas(parent_excess: u64, parent_used: u64) -> int {
    if parent_excess + parent_used >= TARGET_BLOB_GAS_PER_BLOCK {
        parent_excess + parent_used - TARGET_BLOB_GAS_PER_BLOCK
    } else {
        0
    }
}

/// `alloy_eips::eip4844::calc_excess_blob_gas`: the sum of the parent's excess and used
/// blob gas, less the target of 393,216 per block, and zero where the sum is below the
/// target. It adds the two without a check, so the sum must fit in a `u64`.
#[verifier::external_body]
pub(crate) fn calc_excess_blob_gas(parent_excess: u64, parent_used: u64) -> (excess: u64)
    requires
        parent_excess + parent_used <= u64::MAX,
    ensures
        excess == next_excess_blob_gas(parent_excess, parent_used),
{
    alloy_eips::eip4844::calc_excess_blob_gas(parent_excess, parent_used)
}

/// The largest excess blob gas for which the blob gas price is computed.
pub const MAX_PRICED_EXCESS_BLOB_GAS: u64 = 134_217_728;

/// The price of blob gas in a block with the excess blob gas `excess`.
pub uninterp spec fn blob_gasprice(excess: u64) -> u128;

/// `revm::context_interface::block::calc_blob_gasprice` with the update fraction of
/// Cancun: the price of blob gas for an excess. It sums a series in `u128` without a
/// check; each term is below 3,338,477 · e^(excess / 3,338,477), so for an excess of
/// at most 2^27 no step overflows.
#[verifier::external_body]
pub(crate) fn calc_blob_gasprice(excess: u64) -> (price: u128)
    requires
        excess <= MAX_PRICED_EXCESS_BLOB_GAS,
    ensures
        price == blob_gasprice(excess),
{
    revm::context_interface::block::calc_blob_gasprice(
        excess,
        revm::primitives::eip4844::BLOB_BASE_FEE_UPDATE_FRACTION_CANCUN,
    )
}

/// The blob gas fields of a block's header: nothing before Cancun; in the first Cancun
/// block both are zero; later the excess follows from the parent's fields, which count
/// as zero where they are missing, and no blob gas is used.
pub open spec fn blob_fields(
    cancun_now: bool,
    cancun_at_parent: bool,
    parent: ParentBlock,
) -> (Option<u64>, Option<u64>) {
    if !cancun_now {
        (None, None)
    } else if !cancun_at_parent {
        (Some(0u64), Some(0u64))
    } else {
        (
            Some(
                next_excess_blob_gas(
                    parent.excess_blob_gas.unwrap_or(0),
                    parent.blob_gas_used.unwrap_or(0),
                ) as u64,
            ),
            Some(0u64),
        )
    }
}

/// Whether the parent's blob gas fields can be added up.
pub open spec fn blob_gas_fits(parent: ParentBlock) -> bool {
    parent.excess_blob_gas.unwrap_or(0) + parent.blob_gas_used.unwrap_or(0) <= u64::MAX
}

/// The excess blob gas and the blob gas used of a block on `parent`.
pub fn next_blob_fields(cancun_now: bool, cancun_at_parent: bool, parent: &ParentBlock) -> (fields: (
    Option<u64>,
    Option<u64>,
))
    requires
        cancun_now && cancun_at_parent ==> blob_gas_fits(*parent),
    ensures
        fields == blob_fields(cancun_now, cancun_at_parent, *parent),
{
    if !cancun_now {
        (None, None)
    } else if !cancun_at_parent {
        (Some(0), Some(0))
    } else {
        let excess = match parent.excess_blob_gas {
            Some(excess) => excess,
            None => 0,
        };
        let used = match parent.blob_gas_used {
            Some(used) => used,
            None => 0,
        };
        (Some(calc_excess_blob_gas(excess, used)), Some(0))
    }
}

} // verus!
