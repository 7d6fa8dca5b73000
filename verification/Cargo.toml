[package]
name = "x402_rs"
version = "0.1.0"
edition = "2021"
publish = false

[dependencies]
alloy = { version = "1", default-features = false }
solana-sdk = { version = "2", default-features = false }
once_cell = "1"
serde = { version = "1", features = ["derive"] }
