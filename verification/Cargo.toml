[package]
name = "accudo-crypto"
version = "0.1.0"
edition = "2021"
publish = false

[dependencies]
anyhow = "=1.0.104"
ed25519-dalek = "=2.2.0"
pqcrypto-dilithium = "=0.5.0"
pqcrypto-kyber = "=0.8.1"
pqcrypto-traits = "=0.3.5"
serde = { version = "=1.0.229", features = ["derive"] }
serde_bytes = "=0.11.19"
tiny-keccak = { version = "=2.0.2", features = ["sha3"] }

[dev-dependencies]
rand = "=0.8.8"
