//! The core of a rollup sequencer: the nonce-ordered transaction pool, the payload
//! builder, and the engine that ties them to the fork choice of the consensus layer
//! and to the user-facing API.
//!
//! The blockchain, its state and the EVM are not part of this crate. Whatever they
//! find or compute comes in as plain values, and every function says what it makes of
//! them.

pub mod api_types;
pub mod assoc;
pub mod attributes;
pub mod backend;
pub mod block;
pub mod built_payload;
pub mod chain;
pub mod engine;
pub mod genesis;
pub mod job_generator;
pub mod nonces;
pub mod payload_builder;
pub mod pool;
pub mod primitives;
pub mod receipt;
pub mod transaction;
pub mod tx_pool;
pub mod u256;
