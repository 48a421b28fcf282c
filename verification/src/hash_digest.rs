//! The dual digest that ledger metadata carries during the migration.

use crate::hash::{lemma_hash_value_ext, HashValue};
use crate::hash_version::HashVersion;
use vstd::prelude::*;

verus! {

/// A canonical hash, an optional legacy hash, and the cohort tag.
#[derive(Clone, Copy, Debug, PartialEq, Eq, Hash)]
pub struct HashDigest {
    hash: HashValue,
    legacy_hash: Option<HashValue>,
    version: HashVersion,
}

/// The mathematical value of a dual digest.
pub struct HashDigestView {
    /// The canonical hash, 32 bytes.
    pub hash: Seq<u8>,
    /// The legacy hash, 32 bytes, where one is kept.
    pub legacy_hash: Option<Seq<u8>>,
    /// The cohort tag.
    pub version: HashVersion,
}

/// The bytes of a hash value that may be absent.
pub open spec fn spec_optional_hash(value: Option<HashValue>) -> Option<Seq<u8>> {
    match value {
        Some(present) => Some(present@),
        None => None,
    }
}

impl View for HashDigest {
    type V = HashDigestView;

    closed spec fn view(&self) -> HashDigestView {
        HashDigestView {
            hash: self.hash@,
            legacy_hash: spec_optional_hash(self.legacy_hash),
            version: self.version,
        }
    }
}

impl HashDigestView {
    /// The tag agrees with the legacy field: a post-quantum digest keeps no
    /// legacy hash, a legacy digest keeps the canonical hash itself, a dual
    /// digest keeps some legacy hash.
    pub open spec fn consistent(self) -> bool {
        match self.version {
            HashVersion::PostQuantum => self.legacy_hash is None,
            HashVersion::LegacySha3 => self.legacy_hash == Some(self.hash),
            HashVersion::Dual => self.legacy_hash is Some,
        }
    }

    /// The tag is determined by the legacy field: absent for post-quantum,
    /// the canonical hash for legacy, another hash for dual.
    pub open spec fn strict(self) -> bool {
        &&& self.version == HashVersion::PostQuantum <==> self.legacy_hash is None
        &&& self.version == HashVersion::LegacySha3 <==> self.legacy_hash == Some(self.hash)
        &&& self.version == HashVersion::Dual <==> (self.legacy_hash is Some && self.legacy_hash
            != Some(self.hash))
    }

    /// The persisted layout: the canonical hash, a presence flag, the legacy
    /// hash where the flag is 1, and the ordinal of the tag.
    pub open spec fn encode(self) -> Seq<u8> {
        match self.legacy_hash {
            Some(legacy) => self.hash + seq![1u8] + legacy + seq![self.version.spec_ordinal()],
            None => self.hash + seq![0u8] + seq![self.version.spec_ordinal()],
        }
    }
}

/// Why bytes are no persisted digest.
#[derive(Clone, Copy, Debug, PartialEq, Eq, Structural, Hash)]
pub enum LayoutError {
    /// The number of bytes is not the one that the presence flag fixes, or
    /// there are too few bytes to hold a flag.
    BadLength {
        /// The number of bytes of a digest with this presence flag; 34 where no flag could be read.
        expected: usize,
        /// The number of bytes handed in.
        actual: usize,
    },
    /// The presence flag is neither 0 nor 1.
    BadPresenceFlag {
        /// The byte found.
        flag: u8,
    },
    /// The last byte is no ordinal of a tag.
    BadVersion {
        /// The byte found.
        ordinal: u8,
    },
}

/// The digest that bytes in the persisted layout stand for.
pub open spec fn spec_decode(bytes: Seq<u8>) -> Result<HashDigestView, LayoutError> {
    if bytes.len() < 34 {
        Err(LayoutError::BadLength { expected: 34, actual: bytes.len() as usize })
    } else if bytes[32] != 0 && bytes[32] != 1 {
        Err(LayoutError::BadPresenceFlag { flag: bytes[32] })
    } else if bytes[32] == 0 && bytes.len() != 34 {
        Err(LayoutError::BadLength { expected: 34, actual: bytes.len() as usize })
    } else if bytes[32] == 1 && bytes.len() != 66 {
        Err(LayoutError::BadLength { expected: 66, actual: bytes.len() as usize })
    } else {
        match HashVersion::spec_from_ordinal(bytes.last()) {
            None => Err(LayoutError::BadVersion { ordinal: bytes.last() }),
            Some(version) => Ok(
                HashDigestView {
                    hash: bytes.subrange(0, 32),
                    legacy_hash: if bytes[32] == 1 {
                        Some(bytes.subrange(33, 65))
                    } else {
                        None
                    },
                    version,
                },
            ),
        }
    }
}

/// The view of an outcome that holds a digest.
pub open spec fn spec_digest_outcome(outcome: Result<HashDigest, LayoutError>) -> Result<
    HashDigestView,
    LayoutError,
> {
    match outcome {
        Ok(digest) => Ok(digest@),
        Err(error) => Err(error),
    }
}

/// The 32 bytes of a slice that start at `at`, as a hash value.
fn hash_value_at(bytes: &[u8], at: usize) -> (value: HashValue)
    requires
        at + 32 <= bytes.len(),
    ensures
        value@ == bytes@.subrange(at as int, at + 32),
{
    let mut array = [0u8; 32];
    let mut i: usize = 0;
    while i < 32
        invariant
            i <= 32,
            at + 32 <= bytes.len(),
            forall|k: int| 0 <= k < i ==> array@[k] == bytes@[at + k],
        decreases 32 - i,
    {
        array[i] = bytes[at + i];
        i = i + 1;
    }
    assert(array@ =~= bytes@.subrange(at as int, at + 32));
    HashValue::new(array)
}

/// Appends the 32 bytes of a hash value to `out`.
fn push_hash_value(out: &mut Vec<u8>, value: &HashValue)
    ensures
        final(out)@ == old(out)@ + value@,
{
    let bytes = value.to_bytes();
    let mut i: usize = 0;
    while i < 32
        invariant
            i <= 32,
            bytes@ == value@,
            bytes@.len() == 32,
            out@ == old(out)@ + bytes@.subrange(0, i as int),
        decreases 32 - i,
    {
        out.push(bytes[i]);
        assert(out@ =~= old(out)@ + bytes@.subrange(0, i + 1));
        i = i + 1;
    }
    assert(bytes@.subrange(0, 32) =~= bytes@);
}

impl HashDigest {
    /// A digest of the three fields as given.
    pub fn new(hash: HashValue, legacy_hash: Option<HashValue>, version: HashVersion) -> (digest:
        HashDigest)
        ensures
            digest@ == (HashDigestView {
                hash: hash@,
                legacy_hash: spec_optional_hash(legacy_hash),
                version,
            }),
    {
        HashDigest { hash, legacy_hash, version }
    }

    /// A post-quantum digest: no legacy hash.
    pub fn post_quantum(hash: HashValue) -> (digest: HashDigest)
        ensures
            digest@ == (HashDigestView {
                hash: hash@,
                legacy_hash: None,
                version: HashVersion::PostQuantum,
            }),
            digest@.consistent(),
            digest@.strict(),
    {
        HashDigest::new(hash, None, HashVersion::PostQuantum)
    }

    /// A legacy digest: the legacy hash is the canonical hash.
    pub fn legacy(hash: HashValue) -> (digest: HashDigest)
        ensures
            digest@ == (HashDigestView {
                hash: hash@,
                legacy_hash: Some(hash@),
                version: HashVersion::LegacySha3,
            }),
            digest@.consistent(),
            digest@.strict(),
    {
        HashDigest::new(hash, Some(hash), HashVersion::LegacySha3)
    }

    /// A dual digest: both hashes as given.
    pub fn dual(hash: HashValue, legacy_hash: HashValue) -> (digest: HashDigest)
        ensures
            digest@ == (HashDigestView {
                hash: hash@,
                legacy_hash: Some(legacy_hash@),
                version: HashVersion::Dual,
            }),
            digest@.consistent(),
            legacy_hash@ != hash@ ==> digest@.strict(),
    {
        HashDigest::new(hash, Some(legacy_hash), HashVersion::Dual)
    }

    /// The canonical hash.
    pub fn hash(&self) -> (hash: HashValue)
        ensures
            hash@ == self@.hash,
    {
        self.hash
    }

    /// The legacy hash, where one is kept.
    pub fn legacy_hash(&self) -> (legacy_hash: Option<HashValue>)
        ensures
            spec_optional_hash(legacy_hash) == self@.legacy_hash,
    {
        self.legacy_hash
    }

    /// The cohort tag.
    pub fn version(&self) -> (version: HashVersion)
        ensures
            version == self@.version,
    {
        self.version
    }

    /// The digest in the persisted layout.
    pub fn to_bytes(&self) -> (bytes: Vec<u8>)
        ensures
            bytes@ == self@.encode(),
    {
        let mut bytes: Vec<u8> = Vec::with_capacity(66);
        push_hash_value(&mut bytes, &self.hash);
        match &self.legacy_hash {
            Some(legacy) => {
                bytes.push(1);
                push_hash_value(&mut bytes, legacy);
            },
            None => {
                bytes.push(0);
            },
        }
        bytes.push(self.version.ordinal());
        assert(bytes@ =~= self@.encode());
        bytes
    }

    /// Reads a digest from the persisted layout.
    pub fn from_bytes(bytes: &[u8]) -> (outcome: Result<HashDigest, LayoutError>)
        ensures
            spec_digest_outcome(outcome) == spec_decode(bytes@),
    {
        let length = bytes.len();
        if length < 34 {
            return Err(LayoutError::BadLength { expected: 34, actual: length });
        }
        let flag = bytes[32];
        if flag != 0 && flag != 1 {
            return Err(LayoutError::BadPresenceFlag { flag });
        }
        if flag == 0 && length != 34 {
            return Err(LayoutError::BadLength { expected: 34, actual: length });
        }
        if flag == 1 && length != 66 {
            return Err(LayoutError::BadLength { expected: 66, actual: length });
        }
        let ordinal = bytes[length - 1];
        match HashVersion::from_ordinal(ordinal) {
            None => Err(LayoutError::BadVersion { ordinal }),
            Some(version) => {
                let hash = hash_value_at(bytes, 0);
                let legacy_hash = if flag == 1 {
                    Some(hash_value_at(bytes, 33))
                } else {
                    None
                };
                Ok(HashDigest { hash, legacy_hash, version })
            },
        }
    }
}

impl From<HashValue> for HashDigest {
    fn from(value: HashValue) -> (digest: HashDigest) {
        let digest = HashDigest::post_quantum(value);
        proof {
            lemma_digest_ext(digest, spec_post_quantum(value));
        }
        digest
    }
}

impl vstd::std_specs::convert::FromSpecImpl<HashValue> for HashDigest {
    open spec fn obeys_from_spec() -> bool {
        true
    }

    open spec fn from_spec(value: HashValue) -> HashDigest {
        spec_post_quantum(value)
    }
}

/// The post-quantum digest of a hash value.
pub closed spec fn spec_post_quantum(hash: HashValue) -> HashDigest {
    HashDigest { hash, legacy_hash: None, version: HashVersion::PostQuantum }
}

/// The view of the post-quantum digest of a hash value.
pub proof fn lemma_spec_post_quantum(hash: HashValue)
    ensures
        spec_post_quantum(hash)@ == (HashDigestView {
            hash: hash@,
            legacy_hash: None,
            version: HashVersion::PostQuantum,
        }),
{
}

/// Two digests with the same view are the same digest.
pub proof fn lemma_digest_ext(a: HashDigest, b: HashDigest)
    requires
        a@ == b@,
    ensures
        a == b,
{
    lemma_hash_value_ext(a.hash, b.hash);
    if a.legacy_hash is Some {
        lemma_hash_value_ext(a.legacy_hash->Some_0, b.legacy_hash->Some_0);
    }
}

/// The three constructors keep what they are given: a legacy digest holds its
/// hash twice under the legacy tag, a post-quantum digest holds no legacy
/// hash, a dual digest holds both hashes unchanged.
pub proof fn lemma_constructors_preserve(
    hash: Seq<u8>,
    legacy_hash: Seq<u8>,
    legacy: HashDigestView,
    post_quantum: HashDigestView,
    dual: HashDigestView,
)
    requires
        legacy == (HashDigestView {
            hash,
            legacy_hash: Some(hash),
            version: HashVersion::LegacySha3,
        }),
        post_quantum == (HashDigestView {
            hash,
            legacy_hash: None,
            version: HashVersion::PostQuantum,
        }),
        dual == (HashDigestView {
            hash,
            legacy_hash: Some(legacy_hash),
            version: HashVersion::Dual,
        }),
    ensures
        legacy.legacy_hash == Some(hash) && legacy.version == HashVersion::LegacySha3,
        post_quantum.legacy_hash is None,
        dual.hash == hash && dual.legacy_hash == Some(legacy_hash),
        legacy.consistent() && post_quantum.consistent() && dual.consistent(),
        legacy.strict() && post_quantum.strict(),
        legacy_hash != hash ==> dual.strict(),
{
}

/// A digest that was written in the persisted layout is read back unchanged.
pub proof fn lemma_layout_round_trip(digest: HashDigestView)
    requires
        digest.hash.len() == 32,
        digest.legacy_hash matches Some(legacy) ==> legacy.len() == 32,
    ensures
        spec_decode(digest.encode()) == Ok::<HashDigestView, LayoutError>(digest),
{
    let bytes = digest.encode();
    crate::hash_version::lemma_ordinal_round_trip(digest.version, digest.version);
    assert(bytes.subrange(0, 32) =~= digest.hash);
    match digest.legacy_hash {
        Some(legacy) => {
            assert(bytes.len() == 66);
            assert(bytes[32] == 1);
            assert(bytes.subrange(33, 65) =~= legacy);
            assert(bytes.last() == digest.version.spec_ordinal());
        },
        None => {
            assert(bytes.len() == 34);
            assert(bytes[32] == 0);
            assert(bytes.last() == digest.version.spec_ordinal());
        },
    }
}

/// Every digest is read back from its persisted layout unchanged.
pub proof fn lemma_digest_round_trip(digest: HashDigest)
    ensures
        digest@.hash.len() == 32,
        digest@.legacy_hash matches Some(legacy) ==> legacy.len() == 32,
        spec_decode(digest@.encode()) == Ok::<HashDigestView, LayoutError>(digest@),
{
    crate::hash::lemma_hash_value_length(digest.hash);
    if digest.legacy_hash is Some {
        crate::hash::lemma_hash_value_length(digest.legacy_hash->Some_0);
    }
    lemma_layout_round_trip(digest@);
}

/// Bytes that are read as a digest are the layout of that digest: no two
/// byte strings stand for one digest.
pub proof fn lemma_layout_unique(bytes: Seq<u8>)
    ensures
        spec_decode(bytes) matches Ok(digest) ==> digest.encode() == bytes,
{
    if spec_decode(bytes) is Ok {
        let digest = spec_decode(bytes)->Ok_0;
        assert(digest.encode() =~= bytes);
    }
}

} // verus!
