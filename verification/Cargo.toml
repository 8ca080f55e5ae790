[package]
name = "chain_analyzer"
version = "0.1.0"
edition = "2021"
publish = false

[dependencies]
serde = { version = "*", features = ["derive"] }
serde_json = "*"
chrono = { version = "*", default-features = false, features = ["clock"] }
anyhow = "*"
solana-sdk = { version = "*", default-features = false, features = ["full"] }
