use accudo_crypto::pq::kyber::{
    decapsulation_result, encapsulation_result, KyberCiphertext, KyberPrivateKey, KyberPublicKey,
    KYBER_CIPHERTEXT_LENGTH, KYBER_PRIVATE_KEY_LENGTH, KYBER_PUBLIC_KEY_LENGTH,
    KYBER_SHARED_SECRET_LENGTH,
};
use accudo_crypto::pq::{Material, PqError};
use pqcrypto_kyber::kyber768;

#[test]
fn kyber_lengths_are_those_of_the_primitive() {
    assert_eq!(KYBER_PUBLIC_KEY_LENGTH, kyber768::public_key_bytes());
    assert_eq!(KYBER_PRIVATE_KEY_LENGTH, kyber768::secret_key_bytes());
    assert_eq!(KYBER_CIPHERTEXT_LENGTH, kyber768::ciphertext_bytes());
    assert_eq!(KYBER_SHARED_SECRET_LENGTH, kyber768::shared_secret_bytes());
}

#[test]
fn kyber_encapsulation_round_trip() {
    let pair = KyberPrivateKey::generate().expect("kyber keypair generation");
    assert_eq!(pair.public.as_bytes().len(), KYBER_PUBLIC_KEY_LENGTH);
    assert_eq!(pair.private.to_bytes().len(), KYBER_PRIVATE_KEY_LENGTH);

    let (ciphertext, shared) = pair.public.encapsulate().expect("encapsulation");
    assert_eq!(ciphertext.as_bytes().len(), KYBER_CIPHERTEXT_LENGTH);
    assert_eq!(shared.len(), KYBER_SHARED_SECRET_LENGTH);

    let recovered = pair.private.decapsulate(&ciphertext).expect("decapsulation");
    assert_eq!(recovered, shared);
    assert_eq!(
        pair.private.decapsulate_bytes(ciphertext.as_bytes()),
        Ok(shared.clone())
    );
    assert_eq!(pair.private.clone().decapsulate(&ciphertext), Ok(shared.clone()));

    let (second_text, second_shared) = pair.public.encapsulate().expect("encapsulation");
    assert_ne!(second_text.as_bytes(), ciphertext.as_bytes());
    assert_eq!(pair.private.decapsulate(&second_text), Ok(second_shared));

    let other = KyberPrivateKey::generate().expect("kyber keypair generation");
    let foreign = other.private.decapsulate(&ciphertext).expect("implicit rejection");
    assert_eq!(foreign.len(), KYBER_SHARED_SECRET_LENGTH);
    assert_ne!(foreign, shared);
}

#[test]
fn a_short_ciphertext_is_malformed_input() {
    let pair = KyberPrivateKey::generate().expect("kyber keypair generation");
    let (ciphertext, _) = pair.public.encapsulate().expect("encapsulation");
    let short = &ciphertext.as_bytes()[..KYBER_CIPHERTEXT_LENGTH - 1];
    let expected = PqError::BadLength {
        material: Material::Ciphertext,
        expected: KYBER_CIPHERTEXT_LENGTH,
        actual: KYBER_CIPHERTEXT_LENGTH - 1,
    };
    assert_eq!(pair.private.decapsulate_bytes(short), Err(expected));
    assert!(expected.is_malformed_input());
    assert_eq!(KyberCiphertext::from_bytes(short).err(), Some(expected));

    let mut long = ciphertext.as_bytes().to_vec();
    long.push(0);
    assert_eq!(
        pair.private.decapsulate_bytes(&long),
        Err(PqError::BadLength {
            material: Material::Ciphertext,
            expected: 1088,
            actual: 1089
        })
    );
    assert_eq!(
        pair.private.decapsulate_bytes(&[]),
        Err(PqError::BadLength {
            material: Material::Ciphertext,
            expected: 1088,
            actual: 0
        })
    );
}

#[test]
fn keys_and_ciphertexts_are_read_at_their_fixed_length_only() {
    let pair = KyberPrivateKey::generate().expect("kyber keypair generation");
    let public = pair.public.to_bytes();
    let private = pair.private.to_bytes();

    let reread = KyberPublicKey::from_bytes(&public).expect("public key");
    assert_eq!(reread, pair.public);
    assert_eq!(reread.as_bytes(), &public[..]);
    assert_eq!(
        KyberPublicKey::from_bytes(&public[1..]).err(),
        Some(PqError::BadLength {
            material: Material::PublicKey,
            expected: 1184,
            actual: 1183
        })
    );

    let secret = KyberPrivateKey::from_bytes(&private).expect("private key");
    assert_eq!(secret.to_bytes(), private);
    assert_eq!(
        KyberPrivateKey::from_bytes(&private[..100]).err(),
        Some(PqError::BadLength {
            material: Material::PrivateKey,
            expected: 2400,
            actual: 100
        })
    );

    let (ciphertext, shared) = reread.encapsulate().expect("encapsulation");
    let text = KyberCiphertext::from_bytes(ciphertext.as_bytes()).expect("ciphertext");
    assert_eq!(text.as_bytes(), ciphertext.as_bytes());
    assert_eq!(text.clone().into_bytes(), ciphertext.as_bytes().to_vec());
    assert_eq!(secret.decapsulate(&text), Ok(shared));
}

#[test]
fn outcomes_for_each_handback_of_the_primitive() {
    assert_eq!(decapsulation_result(2400, 1088, Some(vec![9; 32])), Ok(vec![9; 32]));
    assert_eq!(
        decapsulation_result(2400, 1088, None),
        Err(PqError::EncapsulationFailed)
    );
    assert_eq!(
        decapsulation_result(2399, 1087, Some(vec![9; 32])),
        Err(PqError::BadLength {
            material: Material::PrivateKey,
            expected: 2400,
            actual: 2399
        })
    );
    assert_eq!(
        decapsulation_result(2400, 1087, Some(vec![9; 32])),
        Err(PqError::BadLength {
            material: Material::Ciphertext,
            expected: 1088,
            actual: 1087
        })
    );

    let produced = encapsulation_result(1184, Some((vec![1; 1088], vec![2; 32])))
        .ok()
        .expect("produced");
    assert_eq!(produced.0.as_bytes(), &[1u8; 1088][..]);
    assert_eq!(produced.1, vec![2; 32]);
    assert_eq!(
        encapsulation_result(1184, None).err(),
        Some(PqError::EncapsulationFailed)
    );
    assert_eq!(
        encapsulation_result(1183, Some((vec![1; 1088], vec![2; 32]))).err(),
        Some(PqError::BadLength {
            material: Material::PublicKey,
            expected: 1184,
            actual: 1183
        })
    );
}

#[test]
fn std_conversions_check_the_length_too() {
    let pair = KyberPrivateKey::generate().expect("kyber keypair generation");
    let public = pair.public.to_bytes();
    let private = pair.private.to_bytes();

    let key = KyberPublicKey::try_from(&public[..]).expect("public key");
    assert_eq!(key, pair.public);
    assert_eq!(
        KyberPublicKey::try_from(&public[..1183]).err(),
        Some(PqError::BadLength {
            material: Material::PublicKey,
            expected: 1184,
            actual: 1183
        })
    );
    let secret = KyberPrivateKey::try_from(&private[..]).expect("private key");
    assert_eq!(secret.to_bytes(), private);
    assert_eq!(
        KyberPrivateKey::try_from(&private[..2399]).err(),
        Some(PqError::BadLength {
            material: Material::PrivateKey,
            expected: 2400,
            actual: 2399
        })
    );

    let (ciphertext, _) = key.encapsulate().expect("encapsulation");
    let expected = ciphertext.as_bytes().to_vec();
    let bytes: Vec<u8> = ciphertext.into();
    assert_eq!(bytes, expected);
}
