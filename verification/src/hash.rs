//! Hash primitives: the 32-byte hash value, the lattice engine and its
//! coefficient stream, and the legacy SHA3-256 digest.

pub mod lattice;
pub mod splitmix;
pub mod streaming;

use crate::hash::lattice::{quantum_hash, spec_quantum_hash};
use vstd::prelude::*;

verus! {

/// What SHA3-256 returns for `data`: 32 bytes that depend on the input alone.
pub uninterp spec fn spec_sha3_256(data: Seq<u8>) -> Seq<u8>;

/// SHA3-256 of `data`, computed by `tiny_keccak::Sha3::v256` with one
/// `update` and `finalize`. The contract names the digest and claims nothing
/// else of it; its length is that of the array.
#[verifier::external_body]
fn sha3_256(data: &[u8]) -> (digest: [u8; 32])
    ensures
        digest@ == spec_sha3_256(data@),
{
    let mut output = [0u8; 32];
    let mut hasher = tiny_keccak::Sha3::v256();
    tiny_keccak::Hasher::update(&mut hasher, data);
    tiny_keccak::Hasher::finalize(hasher, &mut output);
    output
}

/// A hash of 32 bytes.
#[derive(Clone, Copy, Debug, PartialEq, Eq, Hash)]
pub struct HashValue {
    hash: [u8; 32],
}

impl View for HashValue {
    type V = Seq<u8>;

    closed spec fn view(&self) -> Seq<u8> {
        self.hash@
    }
}

impl HashValue {
    /// Number of bytes in a hash value.
    pub const LENGTH: usize = 32;

    /// Wraps 32 bytes.
    pub fn new(hash: [u8; 32]) -> (value: HashValue)
        ensures
            value@ == hash@,
    {
        HashValue { hash }
    }

    /// The bytes of the value.
    pub fn to_bytes(&self) -> (bytes: [u8; 32])
        ensures
            bytes@ == self@,
    {
        self.hash
    }

    /// The canonical digest of `bytes`: the lattice hash under the empty domain tag.
    pub fn quantum_safe_of(bytes: &[u8]) -> (value: HashValue)
        ensures
            value@ == spec_quantum_hash(bytes@, Seq::empty()),
    {
        let domain: [u8; 0] = [];
        let digest = quantum_hash(bytes, domain.as_slice());
        assert(domain@ =~= Seq::empty());
        HashValue { hash: digest }
    }

    /// The legacy digest of `bytes`: SHA3-256.
    pub fn legacy_sha3_of(bytes: &[u8]) -> (value: HashValue)
        ensures
            value@ == spec_sha3_256(bytes@),
    {
        HashValue { hash: sha3_256(bytes) }
    }

    /// The canonical digest of `bytes` with its legacy companion.
    pub fn quantum_safe_with_legacy(bytes: &[u8]) -> (pair: (HashValue, HashValue))
        ensures
            pair.0@ == spec_quantum_hash(bytes@, Seq::empty()),
            pair.1@ == spec_sha3_256(bytes@),
    {
        (HashValue::quantum_safe_of(bytes), HashValue::legacy_sha3_of(bytes))
    }
}

/// A hash value has 32 bytes.
pub proof fn lemma_hash_value_length(value: HashValue)
    ensures
        value@.len() == 32,
{
}

/// Two hash values with the same bytes are the same value.
pub proof fn lemma_hash_value_ext(a: HashValue, b: HashValue)
    requires
        a@ == b@,
    ensures
        a == b,
{
    assert(a.hash =~= b.hash);
}

} // verus!
