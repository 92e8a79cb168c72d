[package]
name = "libra_wallet"
version = "0.1.0"
edition = "2021"
publish = false

[dependencies]
tiny-keccak = { version = "*", features = ["sha3"] }
hex = "*"
ed25519-dalek = "*"
rand = "*"
