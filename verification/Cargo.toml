[package]
name = "solana_http_service"
version = "0.1.0"
edition = "2021"
publish = false

[dependencies]
axum = "=0.7.9"
base64 = "=0.22.1"
bs58 = "=0.5.1"
serde = { version = "1", features = ["derive"] }
serde_json = "1"
solana-sdk = "=1.18.26"
spl-associated-token-account = "=3.0.4"
thiserror = "1"
tokio = { version = "1", features = ["rt-multi-thread", "net", "macros"] }
