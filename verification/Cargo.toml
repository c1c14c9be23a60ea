[package]
name = "anchorkit"
version = "0.1.0"
edition = "2021"
publish = false

[dependencies]
sha2 = "=0.10.9"
soroban-env-host = "=25.2.2"
soroban-sdk = { version = "=25.3.2", features = ["testutils"] }

[dev-dependencies]
ed25519-dalek = "=2.2.0"
