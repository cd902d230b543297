[package]
name = "trade_engine"
version = "0.1.0"
edition = "2021"
publish = false

[dependencies]
anyhow = "*"
bs58 = "=0.4.0"
solana-sdk = "=1.18.26"
solana-transaction-status = { version = "=1.18.26", default-features = false }
spl-associated-token-account = "=2.3.0"
tokio = { version = "*", features = ["rt", "time", "macros"] }
