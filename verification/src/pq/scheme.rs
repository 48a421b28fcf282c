//! Scheme identifiers and algorithm-tagged signatures.

use vstd::prelude::*;

verus! {

/// Identifier of a classical or post-quantum scheme.
///
/// The numeric codes are persisted and sent on the wire: new schemes get new
/// codes, and no code is reordered or used again. The variants are declared
/// in the order of their codes.
#[derive(Clone, Copy, Debug, PartialEq, Eq, Structural, PartialOrd, Ord, Hash)]
pub enum SchemeId {
    /// Ed25519 signatures, code `0x0101`.
    Ed25519,
    /// Multi-key Ed25519 signatures, code `0x0102`.
    MultiEd25519,
    /// ECDSA over secp256k1, code `0x0103`.
    Secp256k1Ecdsa,
    /// ECDSA over secp256r1, code `0x0104`.
    Secp256r1Ecdsa,
    /// BLS12-381 signatures, code `0x0201`.
    Bls12381,
    /// X25519 key agreement, code `0x0301`.
    X25519,
    /// Dilithium2 signatures, code `0x1101`.
    Dilithium2,
    /// Dilithium3 signatures, code `0x1102`.
    Dilithium3,
    /// Dilithium5 signatures, code `0x1103`.
    Dilithium5,
    /// Falcon-512 signatures, code `0x1110`.
    Falcon512,
    /// Kyber768 key encapsulation, code `0x2101`.
    Kyber768,
    /// Kyber1024 key encapsulation, code `0x2102`.
    Kyber1024,
    /// The lattice hash, code `0x3101`.
    ShakeLattice,
}

impl SchemeId {
    /// The numeric code of the scheme.
    pub open spec fn spec_code(self) -> u16 {
        match self {
            SchemeId::Ed25519 => 0x0101,
            SchemeId::MultiEd25519 => 0x0102,
            SchemeId::Secp256k1Ecdsa => 0x0103,
            SchemeId::Secp256r1Ecdsa => 0x0104,
            SchemeId::Bls12381 => 0x0201,
            SchemeId::X25519 => 0x0301,
            SchemeId::Dilithium2 => 0x1101,
            SchemeId::Dilithium3 => 0x1102,
            SchemeId::Dilithium5 => 0x1103,
            SchemeId::Falcon512 => 0x1110,
            SchemeId::Kyber768 => 0x2101,
            SchemeId::Kyber1024 => 0x2102,
            SchemeId::ShakeLattice => 0x3101,
        }
    }

    /// The scheme that a numeric code names.
    pub open spec fn spec_from_code(code: u16) -> Option<SchemeId> {
        if code == 0x0101 {
            Some(SchemeId::Ed25519)
        } else if code == 0x0102 {
            Some(SchemeId::MultiEd25519)
        } else if code == 0x0103 {
            Some(SchemeId::Secp256k1Ecdsa)
        } else if code == 0x0104 {
            Some(SchemeId::Secp256r1Ecdsa)
        } else if code == 0x0201 {
            Some(SchemeId::Bls12381)
        } else if code == 0x0301 {
            Some(SchemeId::X25519)
        } else if code == 0x1101 {
            Some(SchemeId::Dilithium2)
        } else if code == 0x1102 {
            Some(SchemeId::Dilithium3)
        } else if code == 0x1103 {
            Some(SchemeId::Dilithium5)
        } else if code == 0x1110 {
            Some(SchemeId::Falcon512)
        } else if code == 0x2101 {
            Some(SchemeId::Kyber768)
        } else if code == 0x2102 {
            Some(SchemeId::Kyber1024)
        } else if code == 0x3101 {
            Some(SchemeId::ShakeLattice)
        } else {
            None
        }
    }

    /// The numeric code of the scheme.
    pub fn code(self) -> (code: u16)
        ensures
            code == self.spec_code(),
    {
        match self {
            SchemeId::Ed25519 => 0x0101,
            SchemeId::MultiEd25519 => 0x0102,
            SchemeId::Secp256k1Ecdsa => 0x0103,
            SchemeId::Secp256r1Ecdsa => 0x0104,
            SchemeId::Bls12381 => 0x0201,
            SchemeId::X25519 => 0x0301,
            SchemeId::Dilithium2 => 0x1101,
            SchemeId::Dilithium3 => 0x1102,
            SchemeId::Dilithium5 => 0x1103,
            SchemeId::Falcon512 => 0x1110,
            SchemeId::Kyber768 => 0x2101,
            SchemeId::Kyber1024 => 0x2102,
            SchemeId::ShakeLattice => 0x3101,
        }
    }

    /// Reads a numeric code; `None` for a code that names no scheme.
    pub fn from_code(code: u16) -> (scheme: Option<SchemeId>)
        ensures
            scheme == SchemeId::spec_from_code(code),
    {
        if code == 0x0101 {
            Some(SchemeId::Ed25519)
        } else if code == 0x0102 {
            Some(SchemeId::MultiEd25519)
        } else if code == 0x0103 {
            Some(SchemeId::Secp256k1Ecdsa)
        } else if code == 0x0104 {
            Some(SchemeId::Secp256r1Ecdsa)
        } else if code == 0x0201 {
            Some(SchemeId::Bls12381)
        } else if code == 0x0301 {
            Some(SchemeId::X25519)
        } else if code == 0x1101 {
            Some(SchemeId::Dilithium2)
        } else if code == 0x1102 {
            Some(SchemeId::Dilithium3)
        } else if code == 0x1103 {
            Some(SchemeId::Dilithium5)
        } else if code == 0x1110 {
            Some(SchemeId::Falcon512)
        } else if code == 0x2101 {
            Some(SchemeId::Kyber768)
        } else if code == 0x2102 {
            Some(SchemeId::Kyber1024)
        } else if code == 0x3101 {
            Some(SchemeId::ShakeLattice)
        } else {
            None
        }
    }

    /// A stable name for logs and telemetry.
    pub fn label(self) -> (name: &'static str)
        ensures
            name@ == self.spec_label(),
    {
        match self {
            SchemeId::Ed25519 => "ed25519",
            SchemeId::MultiEd25519 => "multi_ed25519",
            SchemeId::Secp256k1Ecdsa => "secp256k1_ecdsa",
            SchemeId::Secp256r1Ecdsa => "secp256r1_ecdsa",
            SchemeId::Bls12381 => "bls12381",
            SchemeId::X25519 => "x25519",
            SchemeId::Dilithium2 => "dilithium2",
            SchemeId::Dilithium3 => "dilithium3",
            SchemeId::Dilithium5 => "dilithium5",
            SchemeId::Falcon512 => "falcon512",
            SchemeId::Kyber768 => "kyber768",
            SchemeId::Kyber1024 => "kyber1024",
            SchemeId::ShakeLattice => "shake_lattice",
        }
    }

    /// The name of the scheme.
    pub open spec fn spec_label(self) -> Seq<char> {
        match self {
            SchemeId::Ed25519 => "ed25519"@,
            SchemeId::MultiEd25519 => "multi_ed25519"@,
            SchemeId::Secp256k1Ecdsa => "secp256k1_ecdsa"@,
            SchemeId::Secp256r1Ecdsa => "secp256r1_ecdsa"@,
            SchemeId::Bls12381 => "bls12381"@,
            SchemeId::X25519 => "x25519"@,
            SchemeId::Dilithium2 => "dilithium2"@,
            SchemeId::Dilithium3 => "dilithium3"@,
            SchemeId::Dilithium5 => "dilithium5"@,
            SchemeId::Falcon512 => "falcon512"@,
            SchemeId::Kyber768 => "kyber768"@,
            SchemeId::Kyber1024 => "kyber1024"@,
            SchemeId::ShakeLattice => "shake_lattice"@,
        }
    }

    /// Whether the scheme is of the post-quantum families, whose codes lie at `0x1000` and above.
    pub fn is_post_quantum(self) -> (b: bool)
        ensures
            b == (self.spec_code() >= 0x1000),
    {
        self.code() >= 0x1000
    }
}

/// A code that was written is read back as the same scheme: no two schemes share a code.
pub proof fn lemma_code_round_trip(scheme: SchemeId, other: SchemeId)
    ensures
        SchemeId::spec_from_code(scheme.spec_code()) == Some(scheme),
        scheme.spec_code() == other.spec_code() ==> scheme == other,
{
}

/// A code is read as a scheme only if it is that scheme's code.
pub proof fn lemma_from_code_sound(code: u16)
    ensures
        SchemeId::spec_from_code(code) matches Some(scheme) ==> scheme.spec_code() == code,
{
}

/// A signature tagged with the algorithm that made it.
#[derive(Clone, Debug, PartialEq, Eq, Hash)]
pub struct SignatureBundle {
    /// Which algorithm made the signature bytes.
    pub scheme: SchemeId,
    /// The serialized signature.
    pub signature: Vec<u8>,
}

impl SignatureBundle {
    /// A bundle of a scheme and signature bytes.
    pub fn new(scheme: SchemeId, signature: Vec<u8>) -> (bundle: SignatureBundle)
        ensures
            bundle.scheme == scheme,
            bundle.signature@ == signature@,
    {
        SignatureBundle { scheme, signature }
    }

    /// The signature bytes.
    pub fn bytes(&self) -> (bytes: &[u8])
        ensures
            bytes@ == self.signature@,
    {
        self.signature.as_slice()
    }
}

} // verus!
