[package]
name = "chain_ratchet"
version = "0.1.0"
edition = "2021"
publish = false

[dependencies]
hmac = "0.12"
sha2 = "0.10"
zeroize = "1"
serde = { version = "1", features = ["derive"] }
