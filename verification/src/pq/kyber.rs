//! Kyber768 key encapsulation.
//!
//! Every byte length is checked before the primitive is called, so that a
//! malformed input fails fast and with a precise error.

use crate::pq::error::{
    check_length, spec_bytes_outcome, spec_optional_bytes, Material, PqError,
};
use pqcrypto_kyber::kyber768;
use vstd::prelude::*;

verus! {

/// Length in bytes of a Kyber768 public key.
pub const KYBER_PUBLIC_KEY_LENGTH: usize = 1184;

/// Length in bytes of a Kyber768 private key.
pub const KYBER_PRIVATE_KEY_LENGTH: usize = 2400;

/// Length in bytes of a Kyber768 ciphertext.
pub const KYBER_CIPHERTEXT_LENGTH: usize = 1088;

/// Length in bytes of a Kyber768 shared secret.
pub const KYBER_SHARED_SECRET_LENGTH: usize = 32;

/// What `kyber768::decapsulate` returns for a private key and a ciphertext
/// that `from_bytes` reads, and `None` where it reads one of them not.
pub uninterp spec fn spec_kyber768_decapsulate(private_key: Seq<u8>, ciphertext: Seq<u8>) -> Option<
    Seq<u8>,
>;

/// Calls `kyber768::keypair` and hands out the bytes of the public and of
/// the secret key. The keys are random; the contract states their lengths,
/// which the primitive fixes.
#[verifier::external_body]
fn kyber768_keypair() -> (pair: (Vec<u8>, Vec<u8>))
    ensures
        pair.0@.len() == KYBER_PUBLIC_KEY_LENGTH,
        pair.1@.len() == KYBER_PRIVATE_KEY_LENGTH,
{
    let (public, secret) = kyber768::keypair();
    (
        pqcrypto_traits::kem::PublicKey::as_bytes(&public).to_vec(),
        pqcrypto_traits::kem::SecretKey::as_bytes(&secret).to_vec(),
    )
}

/// Reads the key with `kyber768::PublicKey::from_bytes` and calls
/// `kyber768::encapsulate`. The key is read exactly when it has the fixed
/// length. The ciphertext and the shared secret are random; the contract
/// states their lengths, in the order ciphertext, shared secret.
#[verifier::external_body]
fn kyber768_encapsulate(public_key: &[u8]) -> (produced: Option<(Vec<u8>, Vec<u8>)>)
    ensures
        produced is Some <==> public_key@.len() == KYBER_PUBLIC_KEY_LENGTH,
        produced matches Some(pair) ==> pair.0@.len() == KYBER_CIPHERTEXT_LENGTH && pair.1@.len()
            == KYBER_SHARED_SECRET_LENGTH,
{
    let key: kyber768::PublicKey = pqcrypto_traits::kem::PublicKey::from_bytes(public_key).ok()?;
    let (shared, ciphertext) = kyber768::encapsulate(&key);
    Some(
        (
            pqcrypto_traits::kem::Ciphertext::as_bytes(&ciphertext).to_vec(),
            pqcrypto_traits::kem::SharedSecret::as_bytes(&shared).to_vec(),
        ),
    )
}

/// Reads the key with `kyber768::SecretKey::from_bytes`, the ciphertext with
/// `kyber768::Ciphertext::from_bytes`, and calls `kyber768::decapsulate`.
/// The contract names the shared secret, which depends on the two byte
/// strings alone; both are read exactly when they have the fixed lengths,
/// and the secret has the fixed length.
#[verifier::external_body]
fn kyber768_decapsulate(private_key: &[u8], ciphertext: &[u8]) -> (shared: Option<Vec<u8>>)
    ensures
        spec_optional_bytes(shared) == spec_kyber768_decapsulate(private_key@, ciphertext@),
        shared matches Some(bytes) ==> bytes@.len() == KYBER_SHARED_SECRET_LENGTH,
        shared is Some <==> (private_key@.len() == KYBER_PRIVATE_KEY_LENGTH && ciphertext@.len()
            == KYBER_CIPHERTEXT_LENGTH),
{
    let key: kyber768::SecretKey = pqcrypto_traits::kem::SecretKey::from_bytes(private_key).ok()?;
    let text: kyber768::Ciphertext = pqcrypto_traits::kem::Ciphertext::from_bytes(ciphertext).ok()?;
    let secret = kyber768::decapsulate(&text, &key);
    Some(pqcrypto_traits::kem::SharedSecret::as_bytes(&secret).to_vec())
}

/// A copy of the bytes of a slice.
fn copy_bytes(bytes: &[u8]) -> (copy: Vec<u8>)
    ensures
        copy@ == bytes@,
{
    let mut copy: Vec<u8> = Vec::with_capacity(bytes.len());
    let mut i: usize = 0;
    while i < bytes.len()
        invariant
            i <= bytes.len(),
            copy@ == bytes@.subrange(0, i as int),
        decreases bytes.len() - i,
    {
        copy.push(bytes[i]);
        assert(copy@ =~= bytes@.subrange(0, i + 1));
        i = i + 1;
    }
    assert(copy@ =~= bytes@);
    copy
}

/// A Kyber768 private key. It has no debug or display form.
pub struct KyberPrivateKey(Vec<u8>);

/// A Kyber768 public key.
#[derive(Clone, Debug, PartialEq, Eq, Hash)]
pub struct KyberPublicKey(Vec<u8>);

/// A Kyber768 ciphertext, as encapsulation produces it.
#[derive(Clone)]
pub struct KyberCiphertext(Vec<u8>);

/// A Kyber768 key pair.
#[derive(Clone)]
pub struct KyberKeyPair {
    /// The private component.
    pub private: KyberPrivateKey,
    /// The public component.
    pub public: KyberPublicKey,
}

impl View for KyberPrivateKey {
    type V = Seq<u8>;

    closed spec fn view(&self) -> Seq<u8> {
        self.0@
    }
}

impl View for KyberPublicKey {
    type V = Seq<u8>;

    closed spec fn view(&self) -> Seq<u8> {
        self.0@
    }
}

impl View for KyberCiphertext {
    type V = Seq<u8>;

    closed spec fn view(&self) -> Seq<u8> {
        self.0@
    }
}

/// The bytes, where they have the fixed length of their kind, and the
/// malformed-input error where they have another.
pub open spec fn spec_checked_bytes(material: Material, expected: usize, bytes: Seq<u8>) -> Result<
    Seq<u8>,
    PqError,
> {
    if bytes.len() == expected {
        Ok(bytes)
    } else {
        Err(PqError::BadLength { material, expected, actual: bytes.len() as usize })
    }
}

/// What decapsulation returns: malformed lengths first, the private key
/// before the ciphertext, then what the primitive handed back.
pub open spec fn spec_decapsulate_outcome(
    private_key_length: nat,
    ciphertext_length: nat,
    secret: Option<Seq<u8>>,
) -> Result<Seq<u8>, PqError> {
    if private_key_length != 2400 {
        Err(
            PqError::BadLength {
                material: Material::PrivateKey,
                expected: 2400,
                actual: private_key_length as usize,
            },
        )
    } else if ciphertext_length != 1088 {
        Err(
            PqError::BadLength {
                material: Material::Ciphertext,
                expected: 1088,
                actual: ciphertext_length as usize,
            },
        )
    } else {
        match secret {
            Some(bytes) => Ok(bytes),
            None => Err(PqError::EncapsulationFailed),
        }
    }
}

/// The shared secret where the lengths are right and the primitive handed
/// one back, and the error otherwise.
pub fn decapsulation_result(
    private_key_length: usize,
    ciphertext_length: usize,
    secret: Option<Vec<u8>>,
) -> (outcome: Result<Vec<u8>, PqError>)
    ensures
        spec_bytes_outcome(outcome) == spec_decapsulate_outcome(
            private_key_length as nat,
            ciphertext_length as nat,
            spec_optional_bytes(secret),
        ),
{
    if let Err(error) = check_length(
        Material::PrivateKey,
        KYBER_PRIVATE_KEY_LENGTH,
        private_key_length,
    ) {
        return Err(error);
    }
    if let Err(error) = check_length(
        Material::Ciphertext,
        KYBER_CIPHERTEXT_LENGTH,
        ciphertext_length,
    ) {
        return Err(error);
    }
    match secret {
        Some(bytes) => Ok(bytes),
        None => Err(PqError::EncapsulationFailed),
    }
}

/// The ciphertext and the shared secret where the primitive produced them,
/// and the error for a key of `public_key_length` bytes otherwise.
pub fn encapsulation_result(public_key_length: usize, produced: Option<(Vec<u8>, Vec<u8>)>) -> (outcome:
    Result<(KyberCiphertext, Vec<u8>), PqError>)
    ensures
        public_key_length != KYBER_PUBLIC_KEY_LENGTH ==> outcome == Err::<
            (KyberCiphertext, Vec<u8>),
            PqError,
        >(
            PqError::BadLength {
                material: Material::PublicKey,
                expected: KYBER_PUBLIC_KEY_LENGTH,
                actual: public_key_length,
            },
        ),
        public_key_length == KYBER_PUBLIC_KEY_LENGTH ==> (match produced {
            Some(pair) => outcome matches Ok(out) && out.0@ == pair.0@ && out.1@ == pair.1@,
            None => outcome == Err::<(KyberCiphertext, Vec<u8>), PqError>(
                PqError::EncapsulationFailed,
            ),
        }),
{
    if let Err(error) = check_length(
        Material::PublicKey,
        KYBER_PUBLIC_KEY_LENGTH,
        public_key_length,
    ) {
        return Err(error);
    }
    match produced {
        Some((ciphertext, shared)) => Ok((KyberCiphertext(ciphertext), shared)),
        None => Err(PqError::EncapsulationFailed),
    }
}

impl KyberPrivateKey {
    /// Generates a fresh key pair.
    pub fn generate() -> (outcome: Result<KyberKeyPair, PqError>)
        ensures
            outcome matches Ok(pair) && pair.private@.len() == KYBER_PRIVATE_KEY_LENGTH
                && pair.public@.len() == KYBER_PUBLIC_KEY_LENGTH,
    {
        let (public, secret) = kyber768_keypair();
        Ok(KyberKeyPair { private: KyberPrivateKey(secret), public: KyberPublicKey(public) })
    }

    /// Reads a private key from bytes of the fixed length.
    pub fn from_bytes(bytes: &[u8]) -> (outcome: Result<KyberPrivateKey, PqError>)
        ensures
            (match outcome {
                Ok(key) => Ok::<Seq<u8>, PqError>(key@),
                Err(error) => Err::<Seq<u8>, PqError>(error),
            }) == spec_checked_bytes(Material::PrivateKey, KYBER_PRIVATE_KEY_LENGTH, bytes@),
    {
        if let Err(error) = check_length(
            Material::PrivateKey,
            KYBER_PRIVATE_KEY_LENGTH,
            bytes.len(),
        ) {
            return Err(error);
        }
        Ok(KyberPrivateKey(copy_bytes(bytes)))
    }

    /// A copy of the key bytes.
    pub fn to_bytes(&self) -> (bytes: Vec<u8>)
        ensures
            bytes@ == self@,
    {
        copy_bytes(self.0.as_slice())
    }

    /// Decapsulates a ciphertext and returns the shared secret.
    pub fn decapsulate(&self, ciphertext: &KyberCiphertext) -> (outcome: Result<Vec<u8>, PqError>)
        ensures
            spec_bytes_outcome(outcome) == spec_decapsulate_outcome(
                self@.len(),
                ciphertext@.len(),
                spec_kyber768_decapsulate(self@, ciphertext@),
            ),
            outcome is Ok <==> (self@.len() == KYBER_PRIVATE_KEY_LENGTH && ciphertext@.len()
                == KYBER_CIPHERTEXT_LENGTH),
            outcome matches Ok(bytes) ==> bytes@.len() == KYBER_SHARED_SECRET_LENGTH,
    {
        self.decapsulate_bytes(ciphertext.0.as_slice())
    }

    /// Decapsulates the raw bytes of a ciphertext. A ciphertext or a key of
    /// the wrong length is refused as malformed before the primitive is called.
    pub fn decapsulate_bytes(&self, ciphertext: &[u8]) -> (outcome: Result<Vec<u8>, PqError>)
        ensures
            spec_bytes_outcome(outcome) == spec_decapsulate_outcome(
                self@.len(),
                ciphertext@.len(),
                spec_kyber768_decapsulate(self@, ciphertext@),
            ),
            outcome is Ok <==> (self@.len() == KYBER_PRIVATE_KEY_LENGTH && ciphertext@.len()
                == KYBER_CIPHERTEXT_LENGTH),
            outcome matches Ok(bytes) ==> bytes@.len() == KYBER_SHARED_SECRET_LENGTH,
    {
        if self.0.len() != KYBER_PRIVATE_KEY_LENGTH || ciphertext.len() != KYBER_CIPHERTEXT_LENGTH {
            return decapsulation_result(self.0.len(), ciphertext.len(), None);
        }
        let secret = kyber768_decapsulate(self.0.as_slice(), ciphertext);
        decapsulation_result(self.0.len(), ciphertext.len(), secret)
    }
}

impl Clone for KyberPrivateKey {
    fn clone(&self) -> (copy: KyberPrivateKey)
        ensures
            copy@ == self@,
    {
        KyberPrivateKey(copy_bytes(self.0.as_slice()))
    }
}

impl KyberPublicKey {
    /// Reads a public key from bytes of the fixed length.
    pub fn from_bytes(bytes: &[u8]) -> (outcome: Result<KyberPublicKey, PqError>)
        ensures
            (match outcome {
                Ok(key) => Ok::<Seq<u8>, PqError>(key@),
                Err(error) => Err::<Seq<u8>, PqError>(error),
            }) == spec_checked_bytes(Material::PublicKey, KYBER_PUBLIC_KEY_LENGTH, bytes@),
    {
        if let Err(error) = check_length(
            Material::PublicKey,
            KYBER_PUBLIC_KEY_LENGTH,
            bytes.len(),
        ) {
            return Err(error);
        }
        Ok(KyberPublicKey(copy_bytes(bytes)))
    }

    /// The key bytes.
    pub fn as_bytes(&self) -> (bytes: &[u8])
        ensures
            bytes@ == self@,
    {
        self.0.as_slice()
    }

    /// A copy of the key bytes.
    pub fn to_bytes(&self) -> (bytes: Vec<u8>)
        ensures
            bytes@ == self@,
    {
        copy_bytes(self.0.as_slice())
    }

    /// Encapsulates to the key and returns the ciphertext and the shared secret, in this order.
    pub fn encapsulate(&self) -> (outcome: Result<(KyberCiphertext, Vec<u8>), PqError>)
        ensures
            self@.len() != KYBER_PUBLIC_KEY_LENGTH ==> outcome == Err::<
                (KyberCiphertext, Vec<u8>),
                PqError,
            >(
                PqError::BadLength {
                    material: Material::PublicKey,
                    expected: KYBER_PUBLIC_KEY_LENGTH,
                    actual: self@.len() as usize,
                },
            ),
            self@.len() == KYBER_PUBLIC_KEY_LENGTH ==> (outcome matches Ok(pair) && pair.0@.len()
                == KYBER_CIPHERTEXT_LENGTH && pair.1@.len() == KYBER_SHARED_SECRET_LENGTH),
    {
        if self.0.len() != KYBER_PUBLIC_KEY_LENGTH {
            return encapsulation_result(self.0.len(), None);
        }
        let produced = kyber768_encapsulate(self.0.as_slice());
        encapsulation_result(self.0.len(), produced)
    }
}

impl KyberCiphertext {
    /// The ciphertext bytes.
    pub fn as_bytes(&self) -> (bytes: &[u8])
        ensures
            bytes@ == self@,
    {
        self.0.as_slice()
    }

    /// Reads a ciphertext from bytes of the fixed length.
    pub fn from_bytes(bytes: &[u8]) -> (outcome: Result<KyberCiphertext, PqError>)
        ensures
            (match outcome {
                Ok(text) => Ok::<Seq<u8>, PqError>(text@),
                Err(error) => Err::<Seq<u8>, PqError>(error),
            }) == spec_checked_bytes(Material::Ciphertext, KYBER_CIPHERTEXT_LENGTH, bytes@),
    {
        if let Err(error) = check_length(
            Material::Ciphertext,
            KYBER_CIPHERTEXT_LENGTH,
            bytes.len(),
        ) {
            return Err(error);
        }
        Ok(KyberCiphertext(copy_bytes(bytes)))
    }

    /// The ciphertext bytes, by value.
    pub fn into_bytes(self) -> (bytes: Vec<u8>)
        ensures
            bytes@ == self@,
    {
        self.0
    }
}

impl TryFrom<&[u8]> for KyberPrivateKey {
    type Error = PqError;

    fn try_from(value: &[u8]) -> (outcome: Result<KyberPrivateKey, PqError>)
        ensures
            (match outcome {
                Ok(key) => Ok::<Seq<u8>, PqError>(key@),
                Err(error) => Err::<Seq<u8>, PqError>(error),
            }) == spec_checked_bytes(Material::PrivateKey, KYBER_PRIVATE_KEY_LENGTH, value@),
    {
        KyberPrivateKey::from_bytes(value)
    }
}

impl vstd::std_specs::convert::TryFromSpecImpl<&[u8]> for KyberPrivateKey {
    open spec fn obeys_try_from_spec() -> bool {
        false
    }

    open spec fn try_from_spec(value: &[u8]) -> Result<KyberPrivateKey, PqError> {
        arbitrary()
    }
}

impl TryFrom<&[u8]> for KyberPublicKey {
    type Error = PqError;

    fn try_from(value: &[u8]) -> (outcome: Result<KyberPublicKey, PqError>)
        ensures
            (match outcome {
                Ok(key) => Ok::<Seq<u8>, PqError>(key@),
                Err(error) => Err::<Seq<u8>, PqError>(error),
            }) == spec_checked_bytes(Material::PublicKey, KYBER_PUBLIC_KEY_LENGTH, value@),
    {
        KyberPublicKey::from_bytes(value)
    }
}

impl vstd::std_specs::convert::TryFromSpecImpl<&[u8]> for KyberPublicKey {
    open spec fn obeys_try_from_spec() -> bool {
        false
    }

    open spec fn try_from_spec(value: &[u8]) -> Result<KyberPublicKey, PqError> {
        arbitrary()
    }
}

impl From<KyberCiphertext> for Vec<u8> {
    fn from(value: KyberCiphertext) -> (bytes: Vec<u8>)
        ensures
            bytes@ == value@,
    {
        value.0
    }
}

impl vstd::std_specs::convert::FromSpecImpl<KyberCiphertext> for Vec<u8> {
    open spec fn obeys_from_spec() -> bool {
        false
    }

    open spec fn from_spec(value: KyberCiphertext) -> Vec<u8> {
        arbitrary()
    }
}

/// A key or a ciphertext of the wrong length decides the outcome alone:
/// whatever the primitive would hand back, the outcome is the same
/// malformed-input error.
pub proof fn lemma_length_check_short_circuits(
    private_key_length: nat,
    ciphertext_length: nat,
    first: Option<Seq<u8>>,
    second: Option<Seq<u8>>,
)
    requires
        private_key_length != KYBER_PRIVATE_KEY_LENGTH || ciphertext_length
            != KYBER_CIPHERTEXT_LENGTH,
    ensures
        spec_decapsulate_outcome(private_key_length, ciphertext_length, first)
            == spec_decapsulate_outcome(private_key_length, ciphertext_length, second),
        spec_decapsulate_outcome(private_key_length, ciphertext_length, first) matches Err(error)
            && error is BadLength,
        private_key_length == KYBER_PRIVATE_KEY_LENGTH ==> spec_decapsulate_outcome(
            private_key_length,
            ciphertext_length,
            first,
        ) == Err::<Seq<u8>, PqError>(
            PqError::BadLength {
                material: Material::Ciphertext,
                expected: KYBER_CIPHERTEXT_LENGTH,
                actual: ciphertext_length as usize,
            },
        ),
{
}

} // verus!
