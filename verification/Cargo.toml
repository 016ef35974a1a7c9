[package]
name = "solana_tx_decoding"
version = "0.1.0"
edition = "2021"
publish = false

[dependencies]
bs58 = "0.5.1"
bumpalo = "3"
reqwest = { version = "0.12", features = ["json"] }
serde_json = "1"
solana-sdk = "2.3.1"
solana-transaction-status-client-types = "2.3.13"
tokio = { version = "1", features = ["sync"] }

[dev-dependencies]
borsh = "1"
