//! Capability interfaces and the registry that maps scheme identifiers to them.

use crate::pq::error::{spec_bytes_outcome, Material, PqError};
use crate::pq::scheme::SchemeId;
use std::collections::BTreeMap;
use std::sync::Arc;
use vstd::prelude::*;

verus! {

/// A second handle to the value behind `handle`, made by `Arc::clone` of
/// std: both handles point to one value, so they are equal.
#[verifier::external_body]
pub(crate) fn share<T>(handle: &Arc<T>) -> (copy: Arc<T>)
    ensures
        copy == *handle,
{
    Arc::clone(handle)
}

/// The malformed-input error of a key of `key_actual` bytes and a signature
/// of `signature_actual` bytes where the lengths `key_length` and
/// `signature_length` are fixed; the key is checked first.
pub open spec fn spec_length_gate(
    key_length: Option<usize>,
    signature_length: Option<usize>,
    key_actual: nat,
    signature_actual: nat,
) -> Option<PqError> {
    if key_length is Some && key_actual != key_length->Some_0 {
        Some(
            PqError::BadLength {
                material: Material::PublicKey,
                expected: key_length->Some_0,
                actual: key_actual as usize,
            },
        )
    } else if signature_length is Some && signature_actual != signature_length->Some_0 {
        Some(
            PqError::BadLength {
                material: Material::Signature,
                expected: signature_length->Some_0,
                actual: signature_actual as usize,
            },
        )
    } else {
        None
    }
}

/// A signature algorithm.
///
/// The specification functions say what the executable methods return. An
/// implementation that is verified defines each of them; their default is an
/// unspecified value, of which nothing can be proved.
pub trait SignatureAlgorithm {
    /// The identifier that the algorithm advertises.
    open spec fn spec_scheme(&self) -> SchemeId {
        arbitrary()
    }

    /// The length of a public key in bytes, where the algorithm fixes one.
    open spec fn spec_public_key_length(&self) -> Option<usize> {
        arbitrary()
    }

    /// The length of a signature in bytes, where the algorithm fixes one.
    open spec fn spec_signature_length(&self) -> Option<usize> {
        arbitrary()
    }

    /// Whether the algorithm accepts the signature on the message under the key.
    open spec fn spec_accepts(&self, public_key: Seq<u8>, message: Seq<u8>, signature: Seq<u8>) -> bool {
        arbitrary()
    }

    /// The identifier that the algorithm advertises.
    fn scheme(&self) -> (scheme: SchemeId)
        ensures
            scheme == self.spec_scheme(),
    ;

    /// The length of a public key in bytes, where the algorithm fixes one.
    fn public_key_length(&self) -> (length: Option<usize>)
        ensures
            length == self.spec_public_key_length(),
    ;

    /// The length of a signature in bytes, where the algorithm fixes one.
    fn signature_length(&self) -> (length: Option<usize>)
        ensures
            length == self.spec_signature_length(),
    ;

    /// Verifies a signature on a message under a public key. A key or a
    /// signature of another length than the fixed one is rejected as
    /// malformed, the key first.
    fn verify(&self, public_key: &[u8], message: &[u8], signature: &[u8]) -> (outcome: Result<
        (),
        PqError,
    >)
        ensures
            outcome is Ok <==> self.spec_accepts(public_key@, message@, signature@),
            spec_length_gate(
                self.spec_public_key_length(),
                self.spec_signature_length(),
                public_key@.len(),
                signature@.len(),
            ) is Some ==> outcome == Err::<(), PqError>(
                spec_length_gate(
                    self.spec_public_key_length(),
                    self.spec_signature_length(),
                    public_key@.len(),
                    signature@.len(),
                )->Some_0,
            ),
    ;
}

/// A key encapsulation or key agreement algorithm.
///
/// The specification functions say what the executable methods return. An
/// implementation that is verified defines each of them; their default is an
/// unspecified value, of which nothing can be proved.
pub trait KeyExchangeAlgorithm {
    /// The identifier that the algorithm advertises.
    open spec fn spec_scheme(&self) -> SchemeId {
        arbitrary()
    }

    /// The length of a public key in bytes, where the algorithm fixes one.
    open spec fn spec_public_key_length(&self) -> Option<usize> {
        arbitrary()
    }

    /// The length of the shared secret in bytes, where the algorithm fixes one.
    open spec fn spec_shared_secret_length(&self) -> Option<usize> {
        arbitrary()
    }

    /// What the agreement between a private key and a peer's public key returns.
    open spec fn spec_shared_secret(&self, private_key: Seq<u8>, peer_public_key: Seq<u8>) -> Result<
        Seq<u8>,
        PqError,
    > {
        arbitrary()
    }

    /// The identifier that the algorithm advertises.
    fn scheme(&self) -> (scheme: SchemeId)
        ensures
            scheme == self.spec_scheme(),
    ;

    /// The length of a public key in bytes, where the algorithm fixes one.
    fn public_key_length(&self) -> (length: Option<usize>)
        ensures
            length == self.spec_public_key_length(),
    ;

    /// The length of the shared secret in bytes, where the algorithm fixes one.
    fn shared_secret_length(&self) -> (length: Option<usize>)
        ensures
            length == self.spec_shared_secret_length(),
    ;

    /// A static key agreement between a private key and a peer's public key.
    fn derive_shared_secret(&self, private_key: &[u8], peer_public_key: &[u8]) -> (outcome: Result<
        Vec<u8>,
        PqError,
    >)
        ensures
            spec_bytes_outcome(outcome) == self.spec_shared_secret(private_key@, peer_public_key@),
            outcome matches Ok(secret) ==> (self.spec_shared_secret_length() matches Some(length)
                ==> secret@.len() == length),
    ;
}

/// A streaming hash computation.
///
/// The specification functions say what the executable methods return. An
/// implementation that is verified defines each of them; their default is an
/// unspecified value, of which nothing can be proved.
pub trait HashState: Sized {
    /// The state can take more bytes.
    open spec fn wf(&self) -> bool {
        arbitrary()
    }

    /// The bytes written so far.
    open spec fn spec_written(&self) -> Seq<u8> {
        arbitrary()
    }

    /// The digest of what was written so far.
    open spec fn spec_digest(&self) -> Seq<u8> {
        arbitrary()
    }

    /// The length of a digest in bytes.
    open spec fn spec_digest_length(&self) -> usize {
        arbitrary()
    }

    /// Writes `data` behind what was written before.
    fn write(&mut self, data: &[u8])
        requires
            old(self).wf(),
        ensures
            final(self).wf(),
            final(self).spec_written() == old(self).spec_written() + data@,
            final(self).spec_digest_length() == old(self).spec_digest_length(),
    ;

    /// Ends the computation and returns the digest.
    fn finish(self) -> (digest: Vec<u8>)
        requires
            self.wf(),
        ensures
            digest@ == self.spec_digest(),
            digest@.len() == self.spec_digest_length(),
    ;
}

/// A hashing backend.
///
/// The specification functions say what the executable methods return. An
/// implementation that is verified defines each of them; their default is an
/// unspecified value, of which nothing can be proved.
pub trait HashAlgorithm {
    /// The streaming state of the backend.
    type State: HashState;

    /// The identifier of the hash family.
    open spec fn spec_scheme(&self) -> SchemeId {
        arbitrary()
    }

    /// The length of a digest in bytes.
    open spec fn spec_digest_length(&self) -> usize {
        arbitrary()
    }

    /// The identifier of the hash family.
    fn scheme(&self) -> (scheme: SchemeId)
        ensures
            scheme == self.spec_scheme(),
    ;

    /// The length of a digest in bytes.
    fn digest_length(&self) -> (length: usize)
        ensures
            length == self.spec_digest_length(),
    ;

    /// A fresh streaming state, with nothing written.
    fn create(&self) -> (state: Self::State)
        ensures
            state.wf(),
            state.spec_written() == Seq::<u8>::empty(),
            state.spec_digest_length() == self.spec_digest_length(),
    ;
}

/// What a lookup of `scheme` finds in a mapping from codes to capabilities.
pub open spec fn spec_lookup<T>(entries: Map<u16, Arc<T>>, scheme: SchemeId) -> Option<Arc<T>> {
    if entries.contains_key(scheme.spec_code()) {
        Some(entries[scheme.spec_code()])
    } else {
        None
    }
}

/// Three independent mappings from scheme identifiers to shared capabilities:
/// signatures, key exchanges, hashes.
pub struct AlgorithmRegistry<S, K, H> {
    signatures: BTreeMap<u16, Arc<S>>,
    key_exchanges: BTreeMap<u16, Arc<K>>,
    hashes: BTreeMap<u16, Arc<H>>,
}

impl<S: SignatureAlgorithm, K: KeyExchangeAlgorithm, H: HashAlgorithm> Default for AlgorithmRegistry<
    S,
    K,
    H,
> {
    fn default() -> (registry: Self)
        ensures
            registry.wf(),
            registry.spec_signatures() == Map::<u16, Arc<S>>::empty(),
            registry.spec_key_exchanges() == Map::<u16, Arc<K>>::empty(),
            registry.spec_hashes() == Map::<u16, Arc<H>>::empty(),
    {
        AlgorithmRegistry::new()
    }
}

impl<S: SignatureAlgorithm, K: KeyExchangeAlgorithm, H: HashAlgorithm> AlgorithmRegistry<S, K, H> {
    /// The signature algorithms by scheme code.
    pub closed spec fn spec_signatures(&self) -> Map<u16, Arc<S>> {
        self.signatures@
    }

    /// The key exchange algorithms by scheme code.
    pub closed spec fn spec_key_exchanges(&self) -> Map<u16, Arc<K>> {
        self.key_exchanges@
    }

    /// The hash algorithms by scheme code.
    pub closed spec fn spec_hashes(&self) -> Map<u16, Arc<H>> {
        self.hashes@
    }

    /// Every capability stands under the code of the scheme that it advertises.
    pub open spec fn wf(&self) -> bool {
        &&& forall|code: u16|
            (#[trigger] self.spec_signatures().contains_key(code))
                ==> self.spec_signatures()[code].spec_scheme().spec_code() == code
        &&& forall|code: u16|
            (#[trigger] self.spec_key_exchanges().contains_key(code))
                ==> self.spec_key_exchanges()[code].spec_scheme().spec_code() == code
        &&& forall|code: u16|
            (#[trigger] self.spec_hashes().contains_key(code))
                ==> self.spec_hashes()[code].spec_scheme().spec_code() == code
    }

    /// A registry with nothing registered.
    pub fn new() -> (registry: Self)
        ensures
            registry.wf(),
            registry.spec_signatures() == Map::<u16, Arc<S>>::empty(),
            registry.spec_key_exchanges() == Map::<u16, Arc<K>>::empty(),
            registry.spec_hashes() == Map::<u16, Arc<H>>::empty(),
    {
        AlgorithmRegistry {
            signatures: BTreeMap::new(),
            key_exchanges: BTreeMap::new(),
            hashes: BTreeMap::new(),
        }
    }

    /// Registers a signature algorithm under its scheme; an earlier one under that scheme is replaced.
    pub fn register_signature(&mut self, algorithm: S)
        requires
            old(self).wf(),
        ensures
            final(self).wf(),
            final(self).spec_signatures() == old(self).spec_signatures().insert(
                algorithm.spec_scheme().spec_code(),
                Arc::new(algorithm),
            ),
            final(self).spec_key_exchanges() == old(self).spec_key_exchanges(),
            final(self).spec_hashes() == old(self).spec_hashes(),
    {
        let code = algorithm.scheme().code();
        self.signatures.insert(code, Arc::new(algorithm));
        assert forall|other: u16| (#[trigger] self.spec_signatures().contains_key(other))
            implies self.spec_signatures()[other].spec_scheme().spec_code() == other by {
            if other != code {
                assert(old(self).spec_signatures().contains_key(other));
            }
        }
        assert forall|other: u16| (#[trigger] self.spec_key_exchanges().contains_key(other))
            implies self.spec_key_exchanges()[other].spec_scheme().spec_code() == other by {
            assert(old(self).spec_key_exchanges().contains_key(other));
        }
        assert forall|other: u16| (#[trigger] self.spec_hashes().contains_key(other))
            implies self.spec_hashes()[other].spec_scheme().spec_code() == other by {
            assert(old(self).spec_hashes().contains_key(other));
        }
    }

    /// Registers a key exchange algorithm under its scheme; an earlier one under that scheme is replaced.
    pub fn register_key_exchange(&mut self, algorithm: K)
        requires
            old(self).wf(),
        ensures
            final(self).wf(),
            final(self).spec_key_exchanges() == old(self).spec_key_exchanges().insert(
                algorithm.spec_scheme().spec_code(),
                Arc::new(algorithm),
            ),
            final(self).spec_signatures() == old(self).spec_signatures(),
            final(self).spec_hashes() == old(self).spec_hashes(),
    {
        let code = algorithm.scheme().code();
        self.key_exchanges.insert(code, Arc::new(algorithm));
        assert forall|other: u16| (#[trigger] self.spec_key_exchanges().contains_key(other))
            implies self.spec_key_exchanges()[other].spec_scheme().spec_code() == other by {
            if other != code {
                assert(old(self).spec_key_exchanges().contains_key(other));
            }
        }
        assert forall|other: u16| (#[trigger] self.spec_signatures().contains_key(other))
            implies self.spec_signatures()[other].spec_scheme().spec_code() == other by {
            assert(old(self).spec_signatures().contains_key(other));
        }
        assert forall|other: u16| (#[trigger] self.spec_hashes().contains_key(other))
            implies self.spec_hashes()[other].spec_scheme().spec_code() == other by {
            assert(old(self).spec_hashes().contains_key(other));
        }
    }

    /// Registers a hash algorithm under its scheme; an earlier one under that scheme is replaced.
    pub fn register_hash(&mut self, algorithm: H)
        requires
            old(self).wf(),
        ensures
            final(self).wf(),
            final(self).spec_hashes() == old(self).spec_hashes().insert(
                algorithm.spec_scheme().spec_code(),
                Arc::new(algorithm),
            ),
            final(self).spec_signatures() == old(self).spec_signatures(),
            final(self).spec_key_exchanges() == old(self).spec_key_exchanges(),
    {
        let code = algorithm.scheme().code();
        self.hashes.insert(code, Arc::new(algorithm));
        assert forall|other: u16| (#[trigger] self.spec_hashes().contains_key(other))
            implies self.spec_hashes()[other].spec_scheme().spec_code() == other by {
            if other != code {
                assert(old(self).spec_hashes().contains_key(other));
            }
        }
        assert forall|other: u16| (#[trigger] self.spec_signatures().contains_key(other))
            implies self.spec_signatures()[other].spec_scheme().spec_code() == other by {
            assert(old(self).spec_signatures().contains_key(other));
        }
        assert forall|other: u16| (#[trigger] self.spec_key_exchanges().contains_key(other))
            implies self.spec_key_exchanges()[other].spec_scheme().spec_code() == other by {
            assert(old(self).spec_key_exchanges().contains_key(other));
        }
    }

    /// The signature algorithm registered under `scheme`; `None` where the scheme is unsupported.
    pub fn signature(&self, scheme: SchemeId) -> (handle: Option<Arc<S>>)
        requires
            self.wf(),
        ensures
            handle == spec_lookup(self.spec_signatures(), scheme),
            handle matches Some(found) ==> found.spec_scheme() == scheme,
    {
        let code = scheme.code();
        match self.signatures.get(&code) {
            Some(found) => {
                proof {
                    crate::pq::scheme::lemma_code_round_trip(found.spec_scheme(), scheme);
                }
                Some(share(found))
            },
            None => None,
        }
    }

    /// The key exchange algorithm registered under `scheme`; `None` where the scheme is unsupported.
    pub fn key_exchange(&self, scheme: SchemeId) -> (handle: Option<Arc<K>>)
        requires
            self.wf(),
        ensures
            handle == spec_lookup(self.spec_key_exchanges(), scheme),
            handle matches Some(found) ==> found.spec_scheme() == scheme,
    {
        let code = scheme.code();
        match self.key_exchanges.get(&code) {
            Some(found) => {
                proof {
                    crate::pq::scheme::lemma_code_round_trip(found.spec_scheme(), scheme);
                }
                Some(share(found))
            },
            None => None,
        }
    }

    /// The hash algorithm registered under `scheme`; `None` where the scheme is unsupported.
    pub fn hash(&self, scheme: SchemeId) -> (handle: Option<Arc<H>>)
        requires
            self.wf(),
        ensures
            handle == spec_lookup(self.spec_hashes(), scheme),
            handle matches Some(found) ==> found.spec_scheme() == scheme,
    {
        let code = scheme.code();
        match self.hashes.get(&code) {
            Some(found) => {
                proof {
                    crate::pq::scheme::lemma_code_round_trip(found.spec_scheme(), scheme);
                }
                Some(share(found))
            },
            None => None,
        }
    }
}

/// Registry round trip for signatures: once an algorithm stands under the
/// code of its scheme, a lookup of that scheme finds it, and what is found
/// advertises that scheme; lookups of other schemes find what they found before.
pub proof fn lemma_signature_round_trip<S: SignatureAlgorithm>(
    entries: Map<u16, Arc<S>>,
    algorithm: S,
    other: SchemeId,
)
    ensures
        spec_lookup(
            entries.insert(algorithm.spec_scheme().spec_code(), Arc::new(algorithm)),
            algorithm.spec_scheme(),
        ) == Some(Arc::new(algorithm)),
        other != algorithm.spec_scheme() ==> spec_lookup(
            entries.insert(algorithm.spec_scheme().spec_code(), Arc::new(algorithm)),
            other,
        ) == spec_lookup(entries, other),
{
    crate::pq::scheme::lemma_code_round_trip(algorithm.spec_scheme(), other);
}

/// Registry round trip for key exchanges, as for signatures.
pub proof fn lemma_key_exchange_round_trip<K: KeyExchangeAlgorithm>(
    entries: Map<u16, Arc<K>>,
    algorithm: K,
    other: SchemeId,
)
    ensures
        spec_lookup(
            entries.insert(algorithm.spec_scheme().spec_code(), Arc::new(algorithm)),
            algorithm.spec_scheme(),
        ) == Some(Arc::new(algorithm)),
        other != algorithm.spec_scheme() ==> spec_lookup(
            entries.insert(algorithm.spec_scheme().spec_code(), Arc::new(algorithm)),
            other,
        ) == spec_lookup(entries, other),
{
    crate::pq::scheme::lemma_code_round_trip(algorithm.spec_scheme(), other);
}

/// Registry round trip for hashes, as for signatures.
pub proof fn lemma_hash_round_trip<H: HashAlgorithm>(
    entries: Map<u16, Arc<H>>,
    algorithm: H,
    other: SchemeId,
)
    ensures
        spec_lookup(
            entries.insert(algorithm.spec_scheme().spec_code(), Arc::new(algorithm)),
            algorithm.spec_scheme(),
        ) == Some(Arc::new(algorithm)),
        other != algorithm.spec_scheme() ==> spec_lookup(
            entries.insert(algorithm.spec_scheme().spec_code(), Arc::new(algorithm)),
            other,
        ) == spec_lookup(entries, other),
{
    crate::pq::scheme::lemma_code_round_trip(algorithm.spec_scheme(), other);
}

/// A scheme under whose code nothing stands is absent; in an empty mapping every scheme is.
pub proof fn lemma_unregistered_absent<T>(entries: Map<u16, Arc<T>>, scheme: SchemeId)
    ensures
        !entries.contains_key(scheme.spec_code()) ==> spec_lookup(entries, scheme) is None,
        spec_lookup(Map::<u16, Arc<T>>::empty(), scheme) is None,
{
}

} // verus!
