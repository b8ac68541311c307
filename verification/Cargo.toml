[package]
name = "decoder"
version = "0.1.0"
edition = "2021"
publish = false

[dependencies]
ascon-aead = "=0.4.4"
tiny-keccak = { version = "=2.0.2", features = ["kmac"] }
sha3 = "=0.12.0"
rand = "=0.10.3"
rand_chacha = "=0.10.0"
zeroize = "=1.9.1"
serde = { version = "=1.0.229", features = ["derive"] }
serde_json = "=1.0.151"
