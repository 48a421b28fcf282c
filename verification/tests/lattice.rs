use accudo_crypto::hash::lattice::{derive_seed, quantum_hash, LatticeHasher, LatticeState};
use accudo_crypto::hash::splitmix::SplitMix64;

fn hex(bytes: &[u8]) -> String {
    let mut out = String::new();
    for b in bytes {
        out.push_str(&format!("{:02x}", b));
    }
    out
}

fn sample_message() -> Vec<u8> {
    (0..200usize).map(|i| ((i * 7 + 3) & 0xFF) as u8).collect()
}

fn hamming(a: &[u8], b: &[u8]) -> u32 {
    a.iter().zip(b.iter()).map(|(x, y)| (x ^ y).count_ones()).sum()
}

#[test]
fn empty_message_empty_domain_is_pinned() {
    let first = quantum_hash(b"", b"");
    let second = quantum_hash(b"", b"");
    assert_eq!(first, second);
    assert_eq!(first.len(), 32);
    assert_eq!(
        hex(&first),
        "ed9c8c5f7f818060c5b2908e40c5315c757fd9fe2623177f358e109bbf22eb5e"
    );
}

#[test]
fn digests_of_known_messages() {
    assert_eq!(
        hex(&quantum_hash(b"abc", b"")),
        "aababad03e0186681a65948c82d37280b9fb48244b4399b4ead7c25416a9e14d"
    );
    assert_eq!(
        hex(&quantum_hash(b"", b"ACCUDO::Test")),
        "b37f5e992d8ea2d07f6071f2fb11947a344cda1005766a71bbea9a92797f8d8a"
    );
    assert_eq!(
        hex(&quantum_hash(b"abc", b"ACCUDO::Test")),
        "e4f58e532f65fed2a20315fb137f436613e6369973dac75407f3c9ab1655b996"
    );
    assert_eq!(
        hex(&quantum_hash(&sample_message(), b"")),
        "431e30dc7caccd8216548534d7afcc8a9383191894e365f06394cfccf2cf25a1"
    );
}

#[test]
fn digests_at_the_block_boundary() {
    let full: Vec<u8> = (0..64u8).collect();
    let short: Vec<u8> = (0..63u8).collect();
    assert_eq!(
        hex(&quantum_hash(&full, b"")),
        "5fad92a40839ae98786f0059a83580b0c0d5b9c4a64483441b471e0dcbc68320"
    );
    assert_eq!(
        hex(&quantum_hash(&short, b"")),
        "c9e3a5b7d3b54f354c3d4a2b4df4ad6ab741004b8c281c76086bbe9be86e53b2"
    );
}

#[test]
fn hashing_is_deterministic() {
    let message = sample_message();
    for domain in [&b""[..], &b"a"[..], &b"ACCUDO::Test"[..]] {
        assert_eq!(quantum_hash(&message, domain), quantum_hash(&message, domain));
    }
}

fn sampled_messages() -> Vec<Vec<u8>> {
    let mut messages = vec![Vec::new(), b"abc".to_vec(), sample_message()];
    for length in [1usize, 63, 64, 65, 130] {
        messages.push((0..length).map(|i| ((i * 29 + length) & 0xFF) as u8).collect());
    }
    messages
}

fn sampled_domains() -> Vec<Vec<u8>> {
    let mut domains: Vec<Vec<u8>> = vec![
        Vec::new(),
        b"a".to_vec(),
        b"b".to_vec(),
        b"ACCUDO::Test".to_vec(),
        b"ACCUDO::Tesu".to_vec(),
        vec![0u8],
        vec![0u8, 0u8],
    ];
    domains.push((0..33usize).map(|i| (i * 5) as u8).collect());
    domains.push((0..70usize).map(|i| ((i * 13 + 1) & 0xFF) as u8).collect());
    domains
}

#[test]
fn domains_separate_digests() {
    let messages = sampled_messages();
    let domains = sampled_domains();
    let mut pairs = 0;
    for (i, first) in domains.iter().enumerate() {
        for second in domains.iter().skip(i + 1) {
            assert_ne!(first, second);
            assert_ne!(derive_seed(first), derive_seed(second));
            for message in &messages {
                assert_ne!(quantum_hash(message, first), quantum_hash(message, second));
                pairs += 1;
            }
        }
    }
    assert_eq!(pairs, 36 * 8);
}

#[test]
fn single_bit_flips_change_many_output_bits() {
    let domains: [&[u8]; 3] = [b"", b"a", b"ACCUDO::Test"];
    let mut flips = 0;
    for message in sampled_messages() {
        if message.is_empty() {
            continue;
        }
        for domain in domains {
            let base = quantum_hash(&message, domain);
            let step = if message.len() > 100 { 131 } else { 37 };
            let mut bit = domain.len() % 8;
            while bit < message.len() * 8 {
                let mut flipped = message.clone();
                flipped[bit / 8] ^= 1 << (bit % 8);
                assert_eq!(flipped.len(), message.len());
                let digest = quantum_hash(&flipped, domain);
                assert_ne!(digest, base);
                assert!(
                    hamming(&base, &digest) > 64,
                    "message of {} bytes, bit {}",
                    message.len(),
                    bit
                );
                flips += 1;
                bit += step;
            }
        }
    }
    assert!(flips > 150);
}

#[test]
fn every_bit_of_a_short_message_matters() {
    let message = b"abc".to_vec();
    let base = quantum_hash(&message, b"");
    for bit in 0..message.len() * 8 {
        let mut flipped = message.clone();
        flipped[bit / 8] ^= 1 << (bit % 8);
        let digest = quantum_hash(&flipped, b"");
        assert!(hamming(&base, &digest) > 64, "bit {}", bit);
    }
}

#[test]
fn streaming_in_chunks_equals_one_call() {
    let message = sample_message();
    let expected = quantum_hash(&message, b"ACCUDO::Test");

    let mut whole = LatticeHasher::new(b"ACCUDO::Test");
    whole.update(&message);
    assert_eq!(whole.finalize(), expected);

    let mut bytewise = LatticeHasher::new(b"ACCUDO::Test");
    for b in &message {
        bytewise.update(&[*b]);
    }
    assert_eq!(bytewise.finalize(), expected);

    for size in [1usize, 3, 63, 64, 65, 128, 199] {
        let mut hasher = LatticeHasher::new(b"ACCUDO::Test");
        for chunk in message.chunks(size) {
            hasher.update(chunk);
        }
        assert_eq!(hasher.finalize(), expected, "chunks of {}", size);
    }

    let mut uneven = LatticeHasher::new(b"ACCUDO::Test");
    uneven.update(&message[..5]);
    uneven.update(&[]);
    uneven.update(&message[5..130]);
    uneven.update(&message[130..]);
    assert_eq!(uneven.finalize(), expected);
}

#[test]
fn a_cloned_hasher_goes_on_alone() {
    let mut first = LatticeHasher::new(b"");
    first.update(b"ab");
    let mut second = first.clone();
    first.update(b"c");
    second.update(b"d");
    assert_eq!(first.finalize(), quantum_hash(b"abc", b""));
    assert_eq!(second.finalize(), quantum_hash(b"abd", b""));
}

#[test]
fn state_steps_compose_to_the_digest() {
    let mut state = LatticeState::new(b"");
    state.absorb(b"abc");
    state.pad_and_absorb();
    state.absorb_seed_trailer();
    assert_eq!(state.commit(), quantum_hash(b"abc", b""));

    let mut blockwise = LatticeState::new(b"");
    let block: Vec<u8> = (0..64u8).collect();
    let mut array = [0u8; 64];
    array.copy_from_slice(&block);
    blockwise.absorb_block(&array);
    assert_eq!(blockwise.finalize(), quantum_hash(&block, b""));
}

#[test]
fn seeds_of_domain_tags() {
    assert_eq!(
        hex(&derive_seed(b"")),
        "a5c4e30221405f7e9dbcdbfa1938577695b4d3f211304f6e8daccbea09284766"
    );
    assert_eq!(derive_seed(b"")[0], 0xA5);
    assert_eq!(derive_seed(b"")[1], 31 + 0xA5);
    assert_eq!(
        hex(&derive_seed(b"ACCUDO::Test")),
        "b7003b7815ea287fa4a2ae71210af3dcc5ae978069523b240df6dfc8b19a836c"
    );
    let long: Vec<u8> = (0..70usize).map(|i| ((i * 13 + 1) & 0xFF) as u8).collect();
    assert_eq!(
        hex(&derive_seed(&long)),
        "a6ac391dd979d2d36a6621d0e79936f6939d4428693688115d45342ea2c74433"
    );
}

#[test]
fn coefficient_stream_is_reproducible() {
    let seed = derive_seed(b"");
    let mut stream = SplitMix64::from_seed(&seed, 0);
    assert_eq!(stream.next_u64(), 0x971bfa792d9dce0e);
    assert_eq!(stream.next_u64(), 0x2eff2b80ce3422a8);
    assert_eq!(stream.next_u64(), 0x33fff9fa4a173b3c);

    let mut again = SplitMix64::from_seed(&seed, 0);
    assert_eq!(again.next_u64(), 0x971bfa792d9dce0e);

    let mut other_block = SplitMix64::from_seed(&seed, 1);
    assert_ne!(other_block.next_u64(), 0x971bfa792d9dce0e);
}

#[test]
fn weights_and_residues_stay_in_range() {
    let seed = derive_seed(b"");
    let mut stream = SplitMix64::from_seed(&seed, 7);
    let small: Vec<i128> = (0..8).map(|_| stream.next_small()).collect();
    assert_eq!(small, vec![5, 0, 2, 3, -5, -1, 4, 2]);
    let residues: Vec<i128> = (0..4).map(|_| stream.next_mod()).collect();
    assert_eq!(residues, vec![7351, 4407, 7351, 705]);

    let mut long = SplitMix64::from_seed(&seed, 3);
    for _ in 0..1000 {
        let w = long.next_small();
        assert!((-5..=5).contains(&w));
        let r = long.next_mod();
        assert!((0..12_289).contains(&r));
    }
}
