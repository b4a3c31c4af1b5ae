//! Deterministic, verifiable pseudo-random value generation.
//!
//! The crate composes contextual entropy fields into a byte stream,
//! condenses them with a two-round cryptographic hash, and maps hash
//! output into a bounded integer range with bias-free rejection
//! sampling, producing a bounded batch of values per invocation.

pub mod batch;
pub mod entropy;
pub mod expander;
pub mod hashing;
pub mod sampler;
