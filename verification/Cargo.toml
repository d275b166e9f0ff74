[package]
name = "eth_crypto"
version = "0.1.0"
edition = "2021"
publish = false

[dependencies]
secp256k1 = { version = "0.28", features = ["recovery", "rand-std", "global-context"] }
rand = "0.8"
tiny-keccak = "1.5"
