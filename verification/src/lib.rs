//! Algorithm-agile hashing and signature migration layer.
//!
//! The crate holds a streaming lattice hash with its coefficient stream, a
//! versioned dual digest, the numeric scheme identifiers and a capability
//! registry with adapters for the classical and post-quantum primitives.

pub mod hash;
pub mod hash_digest;
pub mod hash_utils;
pub mod hash_version;
pub mod pq;
