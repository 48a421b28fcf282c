//! Failures of the adapters.

use vstd::prelude::*;

verus! {

/// The kind of byte string that an adapter was handed.
#[derive(Clone, Copy, Debug, PartialEq, Eq, Structural, Hash)]
pub enum Material {
    /// A public key.
    PublicKey,
    /// A private key.
    PrivateKey,
    /// A signature.
    Signature,
    /// A ciphertext of a key encapsulation.
    Ciphertext,
}

/// Why an adapter refused its input.
#[derive(Clone, Copy, Debug, PartialEq, Eq, Structural, Hash)]
pub enum PqError {
    /// Malformed input: a byte string of the wrong length, found before the
    /// primitive was called.
    BadLength {
        /// Which input was malformed.
        material: Material,
        /// The length that the algorithm fixes.
        expected: usize,
        /// The length that was handed in.
        actual: usize,
    },
    /// The primitive could not read a byte string of the right length.
    Unparsable {
        /// Which input the primitive rejected.
        material: Material,
    },
    /// The primitive rejected the signature.
    VerificationFailed,
    /// The primitive failed to encapsulate or decapsulate.
    EncapsulationFailed,
}

impl PqError {
    /// Whether the failure is one of malformed input.
    pub fn is_malformed_input(&self) -> (b: bool)
        ensures
            b == (*self is BadLength),
    {
        matches!(self, PqError::BadLength { .. })
    }
}

/// The outcome of a length check: the error for `actual` bytes where `expected` are fixed.
pub open spec fn spec_length_check(material: Material, expected: usize, actual: usize) -> Result<
    (),
    PqError,
> {
    if actual == expected {
        Ok(())
    } else {
        Err(PqError::BadLength { material, expected, actual })
    }
}

/// Checks a fixed length before anything is parsed.
pub fn check_length(material: Material, expected: usize, actual: usize) -> (outcome: Result<
    (),
    PqError,
>)
    ensures
        outcome == spec_length_check(material, expected, actual),
{
    if actual == expected {
        Ok(())
    } else {
        Err(PqError::BadLength { material, expected, actual })
    }
}

/// The view of bytes that may be absent.
pub open spec fn spec_optional_bytes(bytes: Option<Vec<u8>>) -> Option<Seq<u8>> {
    match bytes {
        Some(present) => Some(present@),
        None => None,
    }
}

/// The view of an outcome that holds bytes.
pub open spec fn spec_bytes_outcome(outcome: Result<Vec<u8>, PqError>) -> Result<Seq<u8>, PqError> {
    match outcome {
        Ok(bytes) => Ok(bytes@),
        Err(error) => Err(error),
    }
}

} // verus!
