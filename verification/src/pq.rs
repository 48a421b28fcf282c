//! Post-quantum abstraction layer.
//!
//! Callers ask for signing, hashing or key agreement by scheme identifier.
//! Implementations register against a [`SchemeId`], so that capabilities can
//! be negotiated and dual-signature payloads sent during the migration.

pub mod baseline;
pub mod dilithium;
pub mod ed25519;
pub mod error;
pub mod kyber;
pub mod lattice_hash;
pub mod registry;
pub mod scheme;

pub use crate::pq::baseline::{baseline_registry, BaselineSignature};
pub use crate::pq::dilithium::{Dilithium3KeyPair, Dilithium3Verifier};
pub use crate::pq::ed25519::Ed25519Verifier;
pub use crate::pq::error::{Material, PqError};
pub use crate::pq::lattice_hash::{LatticeHash, LatticeHashState};
pub use crate::pq::registry::{
    AlgorithmRegistry, HashAlgorithm, HashState, KeyExchangeAlgorithm, SignatureAlgorithm,
};
pub use crate::pq::scheme::{SchemeId, SignatureBundle};
