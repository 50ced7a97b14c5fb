[package]
name = "bridge_assist"
version = "0.1.0"
edition = "2021"
publish = false

[dependencies]
bincode = "1"
ed25519-dalek = "1"
hex = "0.4"
near-contract-standards = { version = "4", default-features = false }
near-sdk = { version = "4", default-features = false }
sha3 = "0.10"
