[package]
name = "sanctuary_signer"
version = "0.1.0"
edition = "2021"
publish = false

[dependencies]
hex = "*"
pqcrypto-dilithium = "*"
pqcrypto-traits = "*"
serde = { version = "*", features = ["derive"] }
