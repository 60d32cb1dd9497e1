[package]
name = "pumpfun"
version = "0.1.0"
edition = "2021"
publish = false

[dependencies]
anyhow = "1"
rand = "0.9"
solana-sdk = "2.2"
spl-associated-token-account = "6"
tokio = { version = "1", features = ["sync"] }

[dev-dependencies]
borsh = "1"
