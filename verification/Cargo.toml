[package]
name = "multisig_core"
version = "0.1.0"
edition = "2021"
publish = false

[dependencies]
pinocchio = "=0.8.4"
pinocchio-system = "=0.2.3"
solana-address = { version = "=2.9.0", features = ["curve25519"] }
