//! The default hash of the core types.
//!
//! Every call site takes its digest from here, so that all of them use the
//! lattice digest in the 32-byte layout.

use crate::hash::lattice::spec_quantum_hash;
use crate::hash::{spec_sha3_256, HashValue};
use crate::hash_digest::{HashDigest, HashDigestView};
use crate::hash_version::HashVersion;
use vstd::prelude::*;

verus! {

/// The canonical digest of `bytes`, used for addresses, authentication keys
/// and other protocol identifiers.
pub fn canonical_hash(bytes: &[u8]) -> (value: HashValue)
    ensures
        value@ == spec_quantum_hash(bytes@, Seq::empty()),
{
    HashValue::quantum_safe_of(bytes)
}

/// The canonical digest of `bytes` together with its legacy SHA3 companion, as a dual digest.
pub fn canonical_hash_digest(bytes: &[u8]) -> (digest: HashDigest)
    ensures
        digest@ == (HashDigestView {
            hash: spec_quantum_hash(bytes@, Seq::empty()),
            legacy_hash: Some(spec_sha3_256(bytes@)),
            version: HashVersion::Dual,
        }),
        digest@.consistent(),
{
    let (quantum_safe, legacy) = HashValue::quantum_safe_with_legacy(bytes);
    HashDigest::dual(quantum_safe, legacy)
}

} // verus!
