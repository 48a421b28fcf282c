//! Dilithium3 signatures behind the signature interface.

use crate::pq::error::{check_length, spec_optional_bytes, Material, PqError};
use crate::pq::registry::{share, SignatureAlgorithm};
use crate::pq::scheme::{SchemeId, SignatureBundle};
use pqcrypto_dilithium::dilithium3;
use std::sync::Arc;
use vstd::prelude::*;

verus! {

/// Length in bytes of a Dilithium3 public key.
pub const DILITHIUM3_PUBLIC_KEY_BYTES: usize = 1952;

/// Length in bytes of a Dilithium3 secret key.
pub const DILITHIUM3_SECRET_KEY_BYTES: usize = 4032;

/// Length in bytes of a Dilithium3 signature.
pub const DILITHIUM3_SIGNATURE_BYTES: usize = 3309;

/// Whether `dilithium3::verify_detached_signature` accepts `signature` on
/// `message` under `public_key`, where both are read by `from_bytes`.
pub uninterp spec fn spec_dilithium3_verifies(
    public_key: Seq<u8>,
    message: Seq<u8>,
    signature: Seq<u8>,
) -> bool;

/// The signature that `dilithium3::detached_sign` makes on `message` with
/// the secret key that `from_bytes` reads from `secret_key`. Signing draws no
/// randomness, so the signature depends on the two byte strings alone.
pub uninterp spec fn spec_dilithium3_signature(secret_key: Seq<u8>, message: Seq<u8>) -> Seq<u8>;

/// Reads the key with `dilithium3::PublicKey::from_bytes`, the signature
/// with `dilithium3::DetachedSignature::from_bytes`, and calls
/// `dilithium3::verify_detached_signature`. The contract names the answer,
/// which depends on the three byte strings alone.
#[verifier::external_body]
fn dilithium3_verify(public_key: &[u8], message: &[u8], signature: &[u8]) -> (ok: bool)
    ensures
        ok == spec_dilithium3_verifies(public_key@, message@, signature@),
{
    let key = pqcrypto_traits::sign::PublicKey::from_bytes(public_key);
    let sig = pqcrypto_traits::sign::DetachedSignature::from_bytes(signature);
    match (key, sig) {
        (Ok(key), Ok(sig)) => dilithium3::verify_detached_signature(&sig, message, &key).is_ok(),
        _ => false,
    }
}

/// Calls `dilithium3::keypair` and hands out the bytes of the public and of
/// the secret key. The keys are random; the contract states their lengths,
/// which the primitive fixes.
#[verifier::external_body]
fn dilithium3_keypair() -> (pair: (Vec<u8>, Vec<u8>))
    ensures
        pair.0@.len() == DILITHIUM3_PUBLIC_KEY_BYTES,
        pair.1@.len() == DILITHIUM3_SECRET_KEY_BYTES,
{
    let (public, secret) = dilithium3::keypair();
    (
        pqcrypto_traits::sign::PublicKey::as_bytes(&public).to_vec(),
        pqcrypto_traits::sign::SecretKey::as_bytes(&secret).to_vec(),
    )
}

/// Reads the secret key with `dilithium3::SecretKey::from_bytes` and calls
/// `dilithium3::detached_sign`. The key is read exactly when it has the
/// fixed length. The contract names the signature, which depends on the key
/// and the message alone, and states its length, which the primitive fixes.
#[verifier::external_body]
fn dilithium3_detached_sign(secret_key: &[u8], message: &[u8]) -> (signature: Option<Vec<u8>>)
    ensures
        signature is Some <==> secret_key@.len() == DILITHIUM3_SECRET_KEY_BYTES,
        signature matches Some(bytes) ==> bytes@ == spec_dilithium3_signature(
            secret_key@,
            message@,
        ),
        signature matches Some(bytes) ==> bytes@.len() == DILITHIUM3_SIGNATURE_BYTES,
{
    let secret: dilithium3::SecretKey = pqcrypto_traits::sign::SecretKey::from_bytes(secret_key).ok()?;
    let signature = dilithium3::detached_sign(message, &secret);
    Some(pqcrypto_traits::sign::DetachedSignature::as_bytes(&signature).to_vec())
}

/// What Dilithium3 verification returns: malformed lengths first, the key
/// before the signature, then the verdict of the primitive.
pub open spec fn spec_dilithium3_outcome(
    public_key: Seq<u8>,
    message: Seq<u8>,
    signature: Seq<u8>,
) -> Result<(), PqError> {
    if public_key.len() != 1952 {
        Err(
            PqError::BadLength {
                material: Material::PublicKey,
                expected: 1952,
                actual: public_key.len() as usize,
            },
        )
    } else if signature.len() != 3309 {
        Err(
            PqError::BadLength {
                material: Material::Signature,
                expected: 3309,
                actual: signature.len() as usize,
            },
        )
    } else if spec_dilithium3_verifies(public_key, message, signature) {
        Ok(())
    } else {
        Err(PqError::VerificationFailed)
    }
}

/// Dilithium3 verification as a signature algorithm.
#[derive(Clone, Copy, Debug)]
pub struct Dilithium3Verifier;

impl SignatureAlgorithm for Dilithium3Verifier {
    open spec fn spec_scheme(&self) -> SchemeId {
        SchemeId::Dilithium3
    }

    open spec fn spec_public_key_length(&self) -> Option<usize> {
        Some(1952usize)
    }

    open spec fn spec_signature_length(&self) -> Option<usize> {
        Some(3309usize)
    }

    open spec fn spec_accepts(
        &self,
        public_key: Seq<u8>,
        message: Seq<u8>,
        signature: Seq<u8>,
    ) -> bool {
        spec_dilithium3_outcome(public_key, message, signature) is Ok
    }

    fn scheme(&self) -> (scheme: SchemeId)
        ensures
            scheme == SchemeId::Dilithium3,
    {
        SchemeId::Dilithium3
    }

    fn public_key_length(&self) -> (length: Option<usize>)
        ensures
            length == Some(DILITHIUM3_PUBLIC_KEY_BYTES),
    {
        Some(DILITHIUM3_PUBLIC_KEY_BYTES)
    }

    fn signature_length(&self) -> (length: Option<usize>)
        ensures
            length == Some(DILITHIUM3_SIGNATURE_BYTES),
    {
        Some(DILITHIUM3_SIGNATURE_BYTES)
    }

    fn verify(&self, public_key: &[u8], message: &[u8], signature: &[u8]) -> (outcome: Result<
        (),
        PqError,
    >)
        ensures
            outcome == spec_dilithium3_outcome(public_key@, message@, signature@),
    {
        if let Err(error) = check_length(
            Material::PublicKey,
            DILITHIUM3_PUBLIC_KEY_BYTES,
            public_key.len(),
        ) {
            return Err(error);
        }
        if let Err(error) = check_length(
            Material::Signature,
            DILITHIUM3_SIGNATURE_BYTES,
            signature.len(),
        ) {
            return Err(error);
        }
        if dilithium3_verify(public_key, message, signature) {
            Ok(())
        } else {
            Err(PqError::VerificationFailed)
        }
    }
}

/// What signing returns for a secret key of `secret_key_length` bytes and
/// what the primitive handed back.
pub open spec fn spec_sign_outcome(secret_key_length: nat, produced: Option<Seq<u8>>) -> Result<
    (SchemeId, Seq<u8>),
    PqError,
> {
    if secret_key_length != 4032 {
        Err(
            PqError::BadLength {
                material: Material::PrivateKey,
                expected: 4032,
                actual: secret_key_length as usize,
            },
        )
    } else {
        match produced {
            Some(bytes) => Ok((SchemeId::Dilithium3, bytes)),
            None => Err(PqError::Unparsable { material: Material::PrivateKey }),
        }
    }
}

/// Tags what the primitive produced as a Dilithium3 signature, or says why there is none.
pub fn signature_bundle_from(secret_key_length: usize, produced: Option<Vec<u8>>) -> (outcome:
    Result<SignatureBundle, PqError>)
    ensures
        (match outcome {
            Ok(bundle) => Ok::<(SchemeId, Seq<u8>), PqError>((bundle.scheme, bundle.signature@)),
            Err(error) => Err::<(SchemeId, Seq<u8>), PqError>(error),
        }) == spec_sign_outcome(secret_key_length as nat, spec_optional_bytes(produced)),
{
    if let Err(error) = check_length(
        Material::PrivateKey,
        DILITHIUM3_SECRET_KEY_BYTES,
        secret_key_length,
    ) {
        return Err(error);
    }
    match produced {
        Some(bytes) => Ok(SignatureBundle::new(SchemeId::Dilithium3, bytes)),
        None => Err(PqError::Unparsable { material: Material::PrivateKey }),
    }
}

/// A Dilithium3 key pair in memory. The secret key sits behind a shared
/// handle, so that several signers can hold it; it is never printed.
#[derive(Clone)]
pub struct Dilithium3KeyPair {
    public_key: Vec<u8>,
    secret_key: Arc<Vec<u8>>,
}

impl Dilithium3KeyPair {
    /// The public key bytes.
    pub closed spec fn spec_public_key(&self) -> Seq<u8> {
        self.public_key@
    }

    /// The secret key bytes.
    pub closed spec fn spec_secret_key(&self) -> Seq<u8> {
        self.secret_key@
    }

    /// Both keys have the lengths that the primitive fixes.
    pub open spec fn wf(&self) -> bool {
        &&& self.spec_public_key().len() == DILITHIUM3_PUBLIC_KEY_BYTES
        &&& self.spec_secret_key().len() == DILITHIUM3_SECRET_KEY_BYTES
    }

    /// Generates a fresh key pair.
    pub fn generate() -> (outcome: Result<Dilithium3KeyPair, PqError>)
        ensures
            outcome matches Ok(pair) && pair.wf(),
    {
        let (public, secret) = dilithium3_keypair();
        Ok(Dilithium3KeyPair { public_key: public, secret_key: Arc::new(secret) })
    }

    /// The public key bytes.
    pub fn public_key(&self) -> (bytes: &[u8])
        ensures
            bytes@ == self.spec_public_key(),
    {
        self.public_key.as_slice()
    }

    /// A shared handle to the secret key bytes.
    pub fn secret_key(&self) -> (handle: Arc<Vec<u8>>)
        ensures
            handle@ == self.spec_secret_key(),
    {
        share(&self.secret_key)
    }

    /// Signs `message` and returns the signature tagged as Dilithium3. The
    /// caller hands in the exact bytes that are to be authenticated.
    pub fn sign(&self, message: &[u8]) -> (outcome: Result<SignatureBundle, PqError>)
        ensures
            outcome is Ok <==> self.spec_secret_key().len() == DILITHIUM3_SECRET_KEY_BYTES,
            outcome matches Ok(bundle) ==> bundle.signature@ == spec_dilithium3_signature(
                self.spec_secret_key(),
                message@,
            ),
            outcome matches Ok(bundle) ==> (bundle.scheme == SchemeId::Dilithium3
                && bundle.signature@.len() == DILITHIUM3_SIGNATURE_BYTES),
            outcome matches Err(error) ==> error == (PqError::BadLength {
                material: Material::PrivateKey,
                expected: DILITHIUM3_SECRET_KEY_BYTES,
                actual: self.spec_secret_key().len() as usize,
            }),
    {
        let produced = dilithium3_detached_sign(self.secret_key.as_slice(), message);
        signature_bundle_from(self.secret_key.len(), produced)
    }
}

} // verus!
