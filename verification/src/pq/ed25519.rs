//! Ed25519 verification behind the signature interface.

use crate::pq::error::{check_length, Material, PqError};
use crate::pq::registry::SignatureAlgorithm;
use crate::pq::scheme::SchemeId;
use vstd::prelude::*;

verus! {

/// Length in bytes of an Ed25519 public key.
pub const ED25519_PUBLIC_KEY_LENGTH: usize = 32;

/// Length in bytes of an Ed25519 signature.
pub const ED25519_SIGNATURE_LENGTH: usize = 64;

/// Whether `ed25519_dalek::VerifyingKey::from_bytes` reads the 32 bytes as a key.
pub uninterp spec fn spec_ed25519_key_parses(public_key: Seq<u8>) -> bool;

/// Whether `verify_strict` of the key read from `public_key` accepts the 64
/// bytes of `signature` on `message`.
pub uninterp spec fn spec_ed25519_verifies(
    public_key: Seq<u8>,
    message: Seq<u8>,
    signature: Seq<u8>,
) -> bool;

/// Calls `ed25519_dalek::VerifyingKey::from_bytes` and says whether it read
/// a key. The contract names the answer, which depends on the bytes alone.
#[verifier::external_body]
fn ed25519_key_parses(public_key: &[u8; 32]) -> (ok: bool)
    ensures
        ok == spec_ed25519_key_parses(public_key@),
{
    ed25519_dalek::VerifyingKey::from_bytes(public_key).is_ok()
}

/// Reads the key with `ed25519_dalek::VerifyingKey::from_bytes`, the
/// signature with `ed25519_dalek::Signature::from_bytes`, and calls
/// `VerifyingKey::verify_strict`. The contract names the answer, which
/// depends on the three byte strings alone, and says that a key that cannot
/// be read accepts nothing.
#[verifier::external_body]
fn ed25519_verify_strict(public_key: &[u8; 32], message: &[u8], signature: &[u8; 64]) -> (ok: bool)
    ensures
        ok == spec_ed25519_verifies(public_key@, message@, signature@),
        ok ==> spec_ed25519_key_parses(public_key@),
{
    match ed25519_dalek::VerifyingKey::from_bytes(public_key) {
        Ok(key) => key.verify_strict(message, &ed25519_dalek::Signature::from_bytes(signature)).is_ok(),
        Err(_) => false,
    }
}

/// The 32 bytes of a slice as an array.
fn array_32(bytes: &[u8]) -> (array: [u8; 32])
    requires
        bytes@.len() == 32,
    ensures
        array@ == bytes@,
{
    let mut array = [0u8; 32];
    let mut i: usize = 0;
    while i < 32
        invariant
            i <= 32,
            bytes@.len() == 32,
            forall|k: int| 0 <= k < i ==> array@[k] == bytes@[k],
        decreases 32 - i,
    {
        array[i] = bytes[i];
        i = i + 1;
    }
    assert(array@ =~= bytes@);
    array
}

/// The 64 bytes of a slice as an array.
fn array_64(bytes: &[u8]) -> (array: [u8; 64])
    requires
        bytes@.len() == 64,
    ensures
        array@ == bytes@,
{
    let mut array = [0u8; 64];
    let mut i: usize = 0;
    while i < 64
        invariant
            i <= 64,
            bytes@.len() == 64,
            forall|k: int| 0 <= k < i ==> array@[k] == bytes@[k],
        decreases 64 - i,
    {
        array[i] = bytes[i];
        i = i + 1;
    }
    assert(array@ =~= bytes@);
    array
}

/// What Ed25519 verification returns: malformed lengths first, then a key
/// that cannot be read, then the verdict of the primitive.
pub open spec fn spec_ed25519_outcome(
    public_key: Seq<u8>,
    message: Seq<u8>,
    signature: Seq<u8>,
) -> Result<(), PqError> {
    if public_key.len() != 32 {
        Err(
            PqError::BadLength {
                material: Material::PublicKey,
                expected: 32,
                actual: public_key.len() as usize,
            },
        )
    } else if signature.len() != 64 {
        Err(
            PqError::BadLength {
                material: Material::Signature,
                expected: 64,
                actual: signature.len() as usize,
            },
        )
    } else if !spec_ed25519_key_parses(public_key) {
        Err(PqError::Unparsable { material: Material::PublicKey })
    } else if spec_ed25519_verifies(public_key, message, signature) {
        Ok(())
    } else {
        Err(PqError::VerificationFailed)
    }
}

/// Ed25519 verification as a signature algorithm.
#[derive(Clone, Copy, Debug)]
pub struct Ed25519Verifier;

impl SignatureAlgorithm for Ed25519Verifier {
    open spec fn spec_scheme(&self) -> SchemeId {
        SchemeId::Ed25519
    }

    open spec fn spec_public_key_length(&self) -> Option<usize> {
        Some(32usize)
    }

    open spec fn spec_signature_length(&self) -> Option<usize> {
        Some(64usize)
    }

    open spec fn spec_accepts(
        &self,
        public_key: Seq<u8>,
        message: Seq<u8>,
        signature: Seq<u8>,
    ) -> bool {
        spec_ed25519_outcome(public_key, message, signature) is Ok
    }

    fn scheme(&self) -> (scheme: SchemeId)
        ensures
            scheme == SchemeId::Ed25519,
    {
        SchemeId::Ed25519
    }

    fn public_key_length(&self) -> (length: Option<usize>)
        ensures
            length == Some(ED25519_PUBLIC_KEY_LENGTH),
    {
        Some(ED25519_PUBLIC_KEY_LENGTH)
    }

    fn signature_length(&self) -> (length: Option<usize>)
        ensures
            length == Some(ED25519_SIGNATURE_LENGTH),
    {
        Some(ED25519_SIGNATURE_LENGTH)
    }

    fn verify(&self, public_key: &[u8], message: &[u8], signature: &[u8]) -> (outcome: Result<
        (),
        PqError,
    >)
        ensures
            outcome == spec_ed25519_outcome(public_key@, message@, signature@),
    {
        if let Err(error) = check_length(
            Material::PublicKey,
            ED25519_PUBLIC_KEY_LENGTH,
            public_key.len(),
        ) {
            return Err(error);
        }
        if let Err(error) = check_length(
            Material::Signature,
            ED25519_SIGNATURE_LENGTH,
            signature.len(),
        ) {
            return Err(error);
        }
        let key = array_32(public_key);
        let sig = array_64(signature);
        if !ed25519_key_parses(&key) {
            return Err(PqError::Unparsable { material: Material::PublicKey });
        }
        if ed25519_verify_strict(&key, message, &sig) {
            Ok(())
        } else {
            Err(PqError::VerificationFailed)
        }
    }
}

} // verus!
