use accudo_crypto::hash::lattice::quantum_hash;
use accudo_crypto::pq::dilithium::{
    signature_bundle_from, DILITHIUM3_PUBLIC_KEY_BYTES, DILITHIUM3_SECRET_KEY_BYTES,
    DILITHIUM3_SIGNATURE_BYTES,
};
use accudo_crypto::pq::ed25519::{ED25519_PUBLIC_KEY_LENGTH, ED25519_SIGNATURE_LENGTH};
use accudo_crypto::pq::error::check_length;
use accudo_crypto::pq::{
    baseline_registry, AlgorithmRegistry, BaselineSignature, Dilithium3KeyPair, Dilithium3Verifier,
    Ed25519Verifier, HashAlgorithm, HashState, KeyExchangeAlgorithm, LatticeHash, Material,
    PqError, SchemeId, SignatureAlgorithm, SignatureBundle,
};
use ed25519_dalek::{Signer, SigningKey};
use rand::{rngs::StdRng, RngCore, SeedableRng};

/// A key exchange that hands back the bytes of both keys, for the registry tests.
struct EchoExchange {
    scheme: SchemeId,
}

impl KeyExchangeAlgorithm for EchoExchange {
    fn scheme(&self) -> SchemeId {
        self.scheme
    }

    fn public_key_length(&self) -> Option<usize> {
        None
    }

    fn shared_secret_length(&self) -> Option<usize> {
        None
    }

    fn derive_shared_secret(
        &self,
        private_key: &[u8],
        peer_public_key: &[u8],
    ) -> Result<Vec<u8>, PqError> {
        let mut secret = private_key.to_vec();
        secret.extend_from_slice(peer_public_key);
        Ok(secret)
    }
}

fn registry() -> AlgorithmRegistry<BaselineSignature, EchoExchange, LatticeHash> {
    baseline_registry()
}

const ALL_SCHEMES: [SchemeId; 13] = [
    SchemeId::Ed25519,
    SchemeId::MultiEd25519,
    SchemeId::Secp256k1Ecdsa,
    SchemeId::Secp256r1Ecdsa,
    SchemeId::Bls12381,
    SchemeId::X25519,
    SchemeId::Dilithium2,
    SchemeId::Dilithium3,
    SchemeId::Dilithium5,
    SchemeId::Falcon512,
    SchemeId::Kyber768,
    SchemeId::Kyber1024,
    SchemeId::ShakeLattice,
];

#[test]
fn ed25519_adapter_verifies_signatures() {
    let mut rng = StdRng::seed_from_u64(42);
    let mut secret = [0u8; 32];
    rng.fill_bytes(&mut secret);
    let private = SigningKey::from_bytes(&secret);
    let public = private.verifying_key();
    let message = b"adapter-check";
    let signature = private.sign(message).to_bytes();

    let registry = registry();
    let adapter = registry
        .signature(SchemeId::Ed25519)
        .expect("ed25519 adapter registered");

    adapter
        .verify(&public.to_bytes(), message, &signature)
        .expect("signature should verify");
}

#[test]
fn dilithium_adapter_roundtrip() {
    let message = b"dilithium-adapter";
    let keypair = Dilithium3KeyPair::generate().expect("dilithium keypair generation");
    let signature = keypair
        .sign(message)
        .expect("dilithium signing should succeed");

    let registry = registry();
    let adapter = registry
        .signature(SchemeId::Dilithium3)
        .expect("dilithium adapter registered");

    adapter
        .verify(keypair.public_key(), message, signature.bytes())
        .expect("dilithium signature should verify");
}

#[test]
fn dilithium_rejects_a_changed_message() {
    let message = b"dilithium-adapter".to_vec();
    let keypair = Dilithium3KeyPair::generate().expect("dilithium keypair generation");
    let signature = keypair.sign(&message).expect("dilithium signing should succeed");
    assert_eq!(signature.scheme, SchemeId::Dilithium3);
    assert_eq!(signature.bytes().len(), DILITHIUM3_SIGNATURE_BYTES);

    let registry = registry();
    let adapter = registry
        .signature(SchemeId::Dilithium3)
        .expect("dilithium adapter registered");
    let verifier = Dilithium3Verifier;
    assert_eq!(verifier.verify(keypair.public_key(), &message, signature.bytes()), Ok(()));
    for position in 0..message.len() {
        for change in [0x01u8, 0x80, 0xFF] {
            let mut changed = message.clone();
            changed[position] ^= change;
            assert_eq!(changed.len(), message.len());
            assert_eq!(
                verifier.verify(keypair.public_key(), &changed, signature.bytes()),
                Err(PqError::VerificationFailed)
            );
            assert_eq!(
                adapter.verify(keypair.public_key(), &changed, signature.bytes()),
                Err(PqError::VerificationFailed)
            );
        }
    }

    let mut forged = signature.bytes().to_vec();
    forged[10] ^= 0x40;
    assert_eq!(
        verifier.verify(keypair.public_key(), &message, &forged),
        Err(PqError::VerificationFailed)
    );

    let other = Dilithium3KeyPair::generate().expect("dilithium keypair generation");
    assert_eq!(
        verifier.verify(other.public_key(), &message, signature.bytes()),
        Err(PqError::VerificationFailed)
    );
}

#[test]
fn dilithium_signature_depends_on_key_and_message_alone() {
    let keypair = Dilithium3KeyPair::generate().expect("dilithium keypair generation");
    let first = keypair.sign(b"dilithium-adapter").expect("signing");
    let second = keypair.sign(b"dilithium-adapter").expect("signing");
    assert_eq!(first, second);
    let copy = keypair.clone();
    assert_eq!(copy.sign(b"dilithium-adapter"), Ok(first.clone()));

    let changed = keypair.sign(b"dilithium-adapteR").expect("signing");
    assert_ne!(changed, first);
    let empty = keypair.sign(b"").expect("signing");
    assert_ne!(empty.bytes(), first.bytes());
    assert_eq!(
        Dilithium3Verifier.verify(keypair.public_key(), b"", empty.bytes()),
        Ok(())
    );

    let other = Dilithium3KeyPair::generate().expect("dilithium keypair generation");
    assert_ne!(other.sign(b"dilithium-adapter"), Ok(first));
}

#[test]
fn dilithium_lengths_are_checked_first() {
    let verifier = Dilithium3Verifier;
    assert_eq!(verifier.scheme(), SchemeId::Dilithium3);
    assert_eq!(verifier.public_key_length(), Some(DILITHIUM3_PUBLIC_KEY_BYTES));
    assert_eq!(verifier.signature_length(), Some(DILITHIUM3_SIGNATURE_BYTES));
    assert_eq!(DILITHIUM3_PUBLIC_KEY_BYTES, pqcrypto_dilithium::dilithium3::public_key_bytes());
    assert_eq!(DILITHIUM3_SECRET_KEY_BYTES, pqcrypto_dilithium::dilithium3::secret_key_bytes());
    assert_eq!(DILITHIUM3_SIGNATURE_BYTES, pqcrypto_dilithium::dilithium3::signature_bytes());

    let key = vec![0u8; DILITHIUM3_PUBLIC_KEY_BYTES];
    let signature = vec![0u8; DILITHIUM3_SIGNATURE_BYTES];
    assert_eq!(
        verifier.verify(&key[1..], b"m", &signature),
        Err(PqError::BadLength {
            material: Material::PublicKey,
            expected: 1952,
            actual: 1951
        })
    );
    assert_eq!(
        verifier.verify(&key[1..], b"m", &signature[1..]),
        Err(PqError::BadLength {
            material: Material::PublicKey,
            expected: 1952,
            actual: 1951
        })
    );
    assert_eq!(
        verifier.verify(&key, b"m", &signature[1..]),
        Err(PqError::BadLength {
            material: Material::Signature,
            expected: 3309,
            actual: 3308
        })
    );
    assert_eq!(verifier.verify(&key, b"m", &signature), Err(PqError::VerificationFailed));
}

#[test]
fn dilithium_keypair_has_the_fixed_lengths() {
    let keypair = Dilithium3KeyPair::generate().expect("dilithium keypair generation");
    assert_eq!(keypair.public_key().len(), DILITHIUM3_PUBLIC_KEY_BYTES);
    assert_eq!(keypair.secret_key().len(), DILITHIUM3_SECRET_KEY_BYTES);
    let copy = keypair.clone();
    assert_eq!(copy.public_key(), keypair.public_key());
    assert_eq!(*copy.secret_key(), *keypair.secret_key());
    let other = Dilithium3KeyPair::generate().expect("dilithium keypair generation");
    assert_ne!(other.public_key(), keypair.public_key());
}

#[test]
fn signing_outcomes_for_each_handback() {
    assert_eq!(
        signature_bundle_from(4032, Some(vec![1, 2, 3])),
        Ok(SignatureBundle::new(SchemeId::Dilithium3, vec![1, 2, 3]))
    );
    assert_eq!(
        signature_bundle_from(4031, Some(vec![1, 2, 3])),
        Err(PqError::BadLength {
            material: Material::PrivateKey,
            expected: 4032,
            actual: 4031
        })
    );
    assert_eq!(
        signature_bundle_from(4032, None),
        Err(PqError::Unparsable {
            material: Material::PrivateKey
        })
    );
}

#[test]
fn ed25519_rejects_malformed_and_forged_input() {
    let private = SigningKey::from_bytes(&[7u8; 32]);
    let public = private.verifying_key().to_bytes();
    let message = b"adapter-check";
    let signature = private.sign(message).to_bytes();
    let verifier = Ed25519Verifier;

    assert_eq!(verifier.scheme(), SchemeId::Ed25519);
    assert_eq!(verifier.public_key_length(), Some(ED25519_PUBLIC_KEY_LENGTH));
    assert_eq!(verifier.signature_length(), Some(ED25519_SIGNATURE_LENGTH));
    assert_eq!(verifier.verify(&public, message, &signature), Ok(()));
    assert_eq!(
        verifier.verify(&public[..31], message, &signature),
        Err(PqError::BadLength {
            material: Material::PublicKey,
            expected: 32,
            actual: 31
        })
    );
    assert_eq!(
        verifier.verify(&public, message, &signature[..63]),
        Err(PqError::BadLength {
            material: Material::Signature,
            expected: 64,
            actual: 63
        })
    );
    let mut no_point = [0u8; 32];
    no_point[0] = 2;
    assert_eq!(
        verifier.verify(&no_point, message, &signature),
        Err(PqError::Unparsable {
            material: Material::PublicKey
        })
    );
    assert_eq!(
        verifier.verify(&public, b"adapter-chec0", &signature),
        Err(PqError::VerificationFailed)
    );
    let mut forged = signature;
    forged[5] ^= 0x10;
    assert_eq!(
        verifier.verify(&public, message, &forged),
        Err(PqError::VerificationFailed)
    );
}

#[test]
fn baseline_registry_holds_the_two_verifiers() {
    let registry = registry();
    for scheme in ALL_SCHEMES {
        let found = registry.signature(scheme);
        if scheme == SchemeId::Ed25519 || scheme == SchemeId::Dilithium3 {
            assert_eq!(found.expect("registered").scheme(), scheme);
        } else {
            assert!(found.is_none());
        }
        assert!(registry.key_exchange(scheme).is_none());
        assert!(registry.hash(scheme).is_none());
    }
}

#[test]
fn registering_then_looking_up_finds_the_algorithm() {
    let mut registry = registry();
    registry.register_hash(LatticeHash);
    registry.register_key_exchange(EchoExchange {
        scheme: SchemeId::X25519,
    });
    registry.register_key_exchange(EchoExchange {
        scheme: SchemeId::Kyber768,
    });

    let hash = registry.hash(SchemeId::ShakeLattice).expect("hash registered");
    assert_eq!(hash.scheme(), SchemeId::ShakeLattice);
    assert_eq!(hash.digest_length(), 32);
    assert!(registry.hash(SchemeId::Ed25519).is_none());

    for scheme in [SchemeId::X25519, SchemeId::Kyber768] {
        let exchange = registry.key_exchange(scheme).expect("key exchange registered");
        assert_eq!(exchange.scheme(), scheme);
        assert_eq!(exchange.derive_shared_secret(&[1], &[2]), Ok(vec![1, 2]));
    }
    assert!(registry.key_exchange(SchemeId::Kyber1024).is_none());
    assert_eq!(
        registry.signature(SchemeId::Ed25519).expect("still registered").scheme(),
        SchemeId::Ed25519
    );
}

#[test]
fn the_last_registration_wins() {
    let mut registry: AlgorithmRegistry<BaselineSignature, EchoExchange, LatticeHash> =
        AlgorithmRegistry::new();
    assert!(registry.signature(SchemeId::Ed25519).is_none());
    registry.register_signature(BaselineSignature::Dilithium3(Dilithium3Verifier));
    registry.register_signature(BaselineSignature::Dilithium3(Dilithium3Verifier));
    registry.register_signature(BaselineSignature::Ed25519(Ed25519Verifier));
    assert_eq!(
        registry.signature(SchemeId::Dilithium3).expect("registered").public_key_length(),
        Some(1952)
    );
    assert_eq!(
        registry.signature(SchemeId::Ed25519).expect("registered").signature_length(),
        Some(64)
    );
    assert!(registry.signature(SchemeId::Falcon512).is_none());
}

#[test]
fn the_registered_hash_streams_to_the_lattice_digest() {
    let mut registry = registry();
    registry.register_hash(LatticeHash);
    let algorithm = registry.hash(SchemeId::ShakeLattice).expect("hash registered");
    let mut state = algorithm.create();
    state.write(b"phase2-");
    state.write(b"hash-upgrade");
    let digest = state.finish();
    assert_eq!(digest.len(), algorithm.digest_length());
    assert_eq!(digest, quantum_hash(b"phase2-hash-upgrade", b"").to_vec());
    assert_eq!(algorithm.create().finish(), quantum_hash(b"", b"").to_vec());
}

#[test]
fn scheme_codes_are_stable() {
    let codes: [u16; 13] = [
        0x0101, 0x0102, 0x0103, 0x0104, 0x0201, 0x0301, 0x1101, 0x1102, 0x1103, 0x1110, 0x2101,
        0x2102, 0x3101,
    ];
    for (scheme, code) in ALL_SCHEMES.iter().zip(codes.iter()) {
        assert_eq!(scheme.code(), *code);
        assert_eq!(SchemeId::from_code(*code), Some(*scheme));
        assert_eq!(scheme.is_post_quantum(), *code >= 0x1000);
    }
    for code in [0u16, 0x0100, 0x0105, 0x1104, 0x2100, 0x3102, 0xFFFF] {
        assert_eq!(SchemeId::from_code(code), None);
    }
    for pair in ALL_SCHEMES.windows(2) {
        assert!(pair[0] < pair[1]);
        assert!(pair[0].code() < pair[1].code());
    }
}

#[test]
fn scheme_labels_are_stable() {
    let labels = [
        "ed25519",
        "multi_ed25519",
        "secp256k1_ecdsa",
        "secp256r1_ecdsa",
        "bls12381",
        "x25519",
        "dilithium2",
        "dilithium3",
        "dilithium5",
        "falcon512",
        "kyber768",
        "kyber1024",
        "shake_lattice",
    ];
    for (scheme, label) in ALL_SCHEMES.iter().zip(labels.iter()) {
        assert_eq!(scheme.label(), *label);
    }
}

#[test]
fn signature_bundles_compare_by_content() {
    let bundle = SignatureBundle::new(SchemeId::Dilithium3, vec![1, 2, 3]);
    assert_eq!(bundle.scheme, SchemeId::Dilithium3);
    assert_eq!(bundle.bytes(), &[1, 2, 3]);
    assert_eq!(bundle, SignatureBundle::new(SchemeId::Dilithium3, vec![1, 2, 3]));
    assert_ne!(bundle, SignatureBundle::new(SchemeId::Dilithium2, vec![1, 2, 3]));
    assert_ne!(bundle, SignatureBundle::new(SchemeId::Dilithium3, vec![1, 2]));
    assert_eq!(bundle.clone(), bundle);
}

#[test]
fn length_checks_name_both_lengths() {
    assert_eq!(check_length(Material::Ciphertext, 1088, 1088), Ok(()));
    let error = check_length(Material::Ciphertext, 1088, 1087).expect_err("one byte short");
    assert_eq!(
        error,
        PqError::BadLength {
            material: Material::Ciphertext,
            expected: 1088,
            actual: 1087
        }
    );
    assert!(error.is_malformed_input());
    assert!(!PqError::VerificationFailed.is_malformed_input());
    assert!(!PqError::EncapsulationFailed.is_malformed_input());
    assert!(!PqError::Unparsable {
        material: Material::PublicKey
    }
    .is_malformed_input());
}
