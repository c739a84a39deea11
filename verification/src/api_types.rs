//! The engine types of the proxy node. They name the shapes that an engine API
//! speaks in; none of them carries data yet.

use vstd::prelude::*;

verus! {

/// The set of types that the sequencer's engine API is made of.
#[derive(Debug, Clone, Copy, PartialEq, Eq, Structural)]
pub struct RedstoneSequencerEngine;

/// A payload that was built.
#[derive(Debug, Clone, Copy, PartialEq, Eq, Structural)]
pub struct RedstoneSequencerBuiltPayload {}

/// The first version of the execution payload.
#[derive(Debug, Clone, Copy, PartialEq, Eq, Structural)]
pub struct RedstoneSequencerPayloadV1 {}

/// The second version of the execution payload.
#[derive(Debug, Clone, Copy, PartialEq, Eq, Structural)]
pub struct RedstoneSequencerPayloadV2 {}

/// The third version of the execution payload.
#[derive(Debug, Clone, Copy, PartialEq, Eq, Structural)]
pub struct RedstoneSequencerPayloadV3 {}

/// The payload attributes as they arrive.
#[derive(Debug, Clone, Copy, PartialEq, Eq, Structural)]
pub struct RedstoneSequencerPayloadAttributes {}

/// The payload attributes that a builder works from.
#[derive(Debug, Clone, Copy, PartialEq, Eq, Structural)]
pub struct RedstoneSequencerPayloadBuilderAttributes {}

} // verus!
