//! The registry of the algorithms that are supported today.

use crate::pq::dilithium::{spec_dilithium3_outcome, Dilithium3Verifier};
use crate::pq::ed25519::{spec_ed25519_outcome, Ed25519Verifier};
use crate::pq::error::PqError;
use crate::pq::registry::{
    AlgorithmRegistry, HashAlgorithm, KeyExchangeAlgorithm, SignatureAlgorithm,
};
use crate::pq::scheme::SchemeId;
use std::sync::Arc;
use vstd::prelude::*;

verus! {

/// The signature algorithms of the baseline registry, behind one type.
#[derive(Clone, Copy, Debug)]
pub enum BaselineSignature {
    /// Classical Ed25519 verification.
    Ed25519(Ed25519Verifier),
    /// Post-quantum Dilithium3 verification.
    Dilithium3(Dilithium3Verifier),
}

impl SignatureAlgorithm for BaselineSignature {
    open spec fn spec_scheme(&self) -> SchemeId {
        match self {
            BaselineSignature::Ed25519(inner) => inner.spec_scheme(),
            BaselineSignature::Dilithium3(inner) => inner.spec_scheme(),
        }
    }

    open spec fn spec_public_key_length(&self) -> Option<usize> {
        match self {
            BaselineSignature::Ed25519(inner) => inner.spec_public_key_length(),
            BaselineSignature::Dilithium3(inner) => inner.spec_public_key_length(),
        }
    }

    open spec fn spec_signature_length(&self) -> Option<usize> {
        match self {
            BaselineSignature::Ed25519(inner) => inner.spec_signature_length(),
            BaselineSignature::Dilithium3(inner) => inner.spec_signature_length(),
        }
    }

    open spec fn spec_accepts(
        &self,
        public_key: Seq<u8>,
        message: Seq<u8>,
        signature: Seq<u8>,
    ) -> bool {
        match self {
            BaselineSignature::Ed25519(inner) => inner.spec_accepts(public_key, message, signature),
            BaselineSignature::Dilithium3(inner) => inner.spec_accepts(
                public_key,
                message,
                signature,
            ),
        }
    }

    fn scheme(&self) -> (scheme: SchemeId)
        ensures
            scheme == (match self {
                BaselineSignature::Ed25519(_) => SchemeId::Ed25519,
                BaselineSignature::Dilithium3(_) => SchemeId::Dilithium3,
            }),
    {
        match self {
            BaselineSignature::Ed25519(inner) => inner.scheme(),
            BaselineSignature::Dilithium3(inner) => inner.scheme(),
        }
    }

    fn public_key_length(&self) -> (length: Option<usize>)
        ensures
            length == (match self {
                BaselineSignature::Ed25519(_) => Some(32usize),
                BaselineSignature::Dilithium3(_) => Some(1952usize),
            }),
    {
        match self {
            BaselineSignature::Ed25519(inner) => inner.public_key_length(),
            BaselineSignature::Dilithium3(inner) => inner.public_key_length(),
        }
    }

    fn signature_length(&self) -> (length: Option<usize>)
        ensures
            length == (match self {
                BaselineSignature::Ed25519(_) => Some(64usize),
                BaselineSignature::Dilithium3(_) => Some(3309usize),
            }),
    {
        match self {
            BaselineSignature::Ed25519(inner) => inner.signature_length(),
            BaselineSignature::Dilithium3(inner) => inner.signature_length(),
        }
    }

    fn verify(&self, public_key: &[u8], message: &[u8], signature: &[u8]) -> (outcome: Result<
        (),
        PqError,
    >)
        ensures
            outcome == (match self {
                BaselineSignature::Ed25519(_) => spec_ed25519_outcome(
                    public_key@,
                    message@,
                    signature@,
                ),
                BaselineSignature::Dilithium3(_) => spec_dilithium3_outcome(
                    public_key@,
                    message@,
                    signature@,
                ),
            }),
    {
        match self {
            BaselineSignature::Ed25519(inner) => inner.verify(public_key, message, signature),
            BaselineSignature::Dilithium3(inner) => inner.verify(public_key, message, signature),
        }
    }
}

/// A registry with the Ed25519 and the Dilithium3 verifier, and neither a
/// key exchange nor a hash algorithm.
pub fn baseline_registry<K: KeyExchangeAlgorithm, H: HashAlgorithm>() -> (registry:
    AlgorithmRegistry<BaselineSignature, K, H>)
    ensures
        registry.wf(),
        registry.spec_signatures() == Map::<u16, Arc<BaselineSignature>>::empty().insert(
            0x0101u16,
            Arc::new(BaselineSignature::Ed25519(Ed25519Verifier)),
        ).insert(0x1102u16, Arc::new(BaselineSignature::Dilithium3(Dilithium3Verifier))),
        registry.spec_key_exchanges() == Map::<u16, Arc<K>>::empty(),
        registry.spec_hashes() == Map::<u16, Arc<H>>::empty(),
{
    let mut registry = AlgorithmRegistry::new();
    registry.register_signature(BaselineSignature::Ed25519(Ed25519Verifier));
    registry.register_signature(BaselineSignature::Dilithium3(Dilithium3Verifier));
    registry
}

} // verus!
