//! The configuration of the payload job generator, and the time that a job has left.

use crate::chain::ParentBlock;
use crate::payload_builder::PayloadBuilderError;
use crate::primitives::B256;
use std::time::UNIX_EPOCH;
use vstd::prelude::*;

verus! {

/// Limits for the generator that starts payload build jobs.
#[derive(Debug, Clone, Copy)]
pub struct RedstonePayloadJobGeneratorConfig {
    /// How many payload build tasks may run at the same time.
    pub max_payload_tasks: usize,
}

impl Default for RedstonePayloadJobGeneratorConfig {
    fn default() -> (config: Self)
        ensures
            config.max_payload_tasks == 0,
    {
        RedstonePayloadJobGeneratorConfig { max_payload_tasks: 0 }
    }
}

/// The number of nanoseconds in a second.
pub const NANOS_PER_SEC: u32 = 1_000_000_000;

/// A span of time: whole seconds and the nanoseconds beyond them.
#[derive(Debug, Clone, Copy, PartialEq, Eq, Structural)]
pub struct TimeSpan {
    pub secs: u64,
    /// Less than a second.
    pub nanos: u32,
}

impl TimeSpan {
    /// The span in nanoseconds.
    pub open spec fn total_nanos(self) -> int {
        self.secs * NANOS_PER_SEC + self.nanos
    }
}

/// The time from `now`, counted from the Unix epoch, to the Unix timestamp
/// `unix_timestamp_secs`: the difference of the two, and nothing where the timestamp is
/// not in the future.
pub open spec fn span_until(unix_timestamp_secs: u64, now: TimeSpan) -> TimeSpan {
    if unix_timestamp_secs <= now.secs {
        TimeSpan { secs: 0, nanos: 0 }
    } else if now.nanos == 0 {
        TimeSpan { secs: (unix_timestamp_secs - now.secs) as u64, nanos: 0 }
    } else {
        TimeSpan {
            secs: (unix_timestamp_secs - now.secs - 1) as u64,
            nanos: (NANOS_PER_SEC - now.nanos) as u32,
        }
    }
}

/// `span_until` is the difference in nanoseconds, cut off at zero.
pub proof fn lemma_span_until(unix_timestamp_secs: u64, now: TimeSpan)
    requires
        now.nanos < NANOS_PER_SEC,
    ensures
        span_until(unix_timestamp_secs, now).nanos < NANOS_PER_SEC,
        span_until(unix_timestamp_secs, now).total_nanos() == (if unix_timestamp_secs
            * NANOS_PER_SEC >= now.total_nanos() {
            unix_timestamp_secs * NANOS_PER_SEC - now.total_nanos()
        } else {
            0
        }),
{
    let ts = unix_timestamp_secs as int;
    let secs = now.secs as int;
    if ts <= secs {
        assert(ts * NANOS_PER_SEC <= secs * NANOS_PER_SEC) by (nonlinear_arith)
            requires
                ts <= secs,
        ;
    } else {
        assert((ts - secs) * NANOS_PER_SEC == ts * NANOS_PER_SEC - secs * NANOS_PER_SEC)
            by (nonlinear_arith);
        assert((ts - secs - 1) * NANOS_PER_SEC == ts * NANOS_PER_SEC - secs * NANOS_PER_SEC
            - NANOS_PER_SEC) by (nonlinear_arith);
        assert((ts - secs) * NANOS_PER_SEC >= NANOS_PER_SEC) by (nonlinear_arith)
            requires
                ts - secs >= 1,
        ;
    }
}

/// The time from `now`, counted from the Unix epoch, to the Unix timestamp
/// `unix_timestamp_secs`.
pub fn time_left(unix_timestamp_secs: u64, now: TimeSpan) -> (left: TimeSpan)
    requires
        now.nanos < NANOS_PER_SEC,
    ensures
        left == span_until(unix_timestamp_secs, now),
{
    if unix_timestamp_secs <= now.secs {
        TimeSpan { secs: 0, nanos: 0 }
    } else if now.nanos == 0 {
        TimeSpan { secs: unix_timestamp_secs - now.secs, nanos: 0 }
    } else {
        TimeSpan { secs: unix_timestamp_secs - now.secs - 1, nanos: NANOS_PER_SEC - now.nanos }
    }
}

/// `std::time::SystemTime::elapsed` on the Unix epoch: the time from the epoch to the
/// current reading of the system clock, as whole seconds and the nanoseconds beyond
/// them, which are less than a second. `None` where the clock stands before the epoch.
#[verifier::external_body]
fn unix_now() -> (now: Option<TimeSpan>)
    ensures
        now matches Some(span) ==> span.nanos < NANOS_PER_SEC,
{
    match UNIX_EPOCH.elapsed() {
        Ok(since) => Some(TimeSpan { secs: since.as_secs(), nanos: since.subsec_nanos() }),
        Err(_) => None,
    }
}

/// The time until the given Unix timestamp in seconds, and nothing where the timestamp
/// is in the past. A clock that stands before the epoch counts as standing at it.
pub fn duration_until(unix_timestamp_secs: u64) -> (left: TimeSpan)
    ensures
        exists|now: TimeSpan|
            now.nanos < NANOS_PER_SEC && left == #[trigger] span_until(unix_timestamp_secs, now),
{
    let now = match unix_now() {
        Some(now) => now,
        None => TimeSpan { secs: 0, nanos: 0 },
    };
    time_left(unix_timestamp_secs, now)
}

/// Which block a new payload job builds on.
#[derive(Clone, Copy, Debug)]
pub enum ParentQuery {
    /// The latest block: the attributes name no parent.
    Latest,
    /// The block with this hash.
    ByHash(B256),
}

/// Which block a job with the parent hash `parent` builds on: the latest block where
/// the hash is zero, else the block with that hash.
pub fn parent_query(parent: &B256) -> (query: ParentQuery)
    ensures
        query == (if parent.spec_is_zero() {
            ParentQuery::Latest
        } else {
            ParentQuery::ByHash(*parent)
        }),
{
    if parent.is_zero() {
        ParentQuery::Latest
    } else {
        ParentQuery::ByHash(*parent)
    }
}

/// The block that a new payload job builds on, given what the lookup found. A block
/// that was looked up by its hash is sealed with that hash; the latest block keeps
/// the hash that it was found with. A block that is not there is a missing parent.
pub fn new_payload_job(parent: B256, found: Result<Option<ParentBlock>, ()>) -> (block: Result<
    ParentBlock,
    PayloadBuilderError,
>)
    ensures
        block == (match found {
            Err(_) => Err::<ParentBlock, PayloadBuilderError>(PayloadBuilderError::Internal),
            Ok(None) => Err::<ParentBlock, PayloadBuilderError>(
                PayloadBuilderError::MissingParentBlock(parent),
            ),
            Ok(Some(latest)) => Ok::<ParentBlock, PayloadBuilderError>(
                if parent.spec_is_zero() {
                    latest
                } else {
                    ParentBlock { hash: parent, ..latest }
                },
            ),
        }),
{
    match found {
        Err(_) => Err(PayloadBuilderError::Internal),
        Ok(None) => Err(PayloadBuilderError::MissingParentBlock(parent)),
        Ok(Some(latest)) => {
            if parent.is_zero() {
                Ok(latest)
            } else {
                Ok(
                    ParentBlock {
                        hash: parent,
                        number: latest.number,
                        timestamp: latest.timestamp,
                        excess_blob_gas: latest.excess_blob_gas,
                        blob_gas_used: latest.blob_gas_used,
                    },
                )
            }
        },
    }
}

} // verus!
