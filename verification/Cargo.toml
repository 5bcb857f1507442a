[package]
name = "cb_backend"
version = "0.1.0"
edition = "2021"
publish = false

[dependencies]
axum = { version = "=0.7.9", default-features = false, features = ["json"] }
base64 = "=0.22.1"
bincode = "=1.3.3"
bs58 = "=0.5.1"
bytemuck = "=1.25.2"
serde = { version = "=1.0.229", features = ["derive"] }
solana-sdk = "=2.3.1"
solana-zk-sdk = "=2.3.13"
spl-associated-token-account = { version = "=6.0.0", features = ["no-entrypoint"] }
spl-token-2022 = { version = "=7.0.0", features = ["no-entrypoint"] }
spl-token-confidential-transfer-proof-extraction = "=0.2.1"
spl-token-confidential-transfer-proof-generation = "=0.3.0"
