[package]
name = "ulendo"
version = "1.1.0"
edition = "2021"
publish = false

[dependencies]
anyhow = "=1.0.104"
axum = { version = "=0.7.9", features = ["multipart", "ws"] }
base64 = "=0.22.1"
bech32 = "=0.11.1"
chrono = "=0.4.45"
dotenvy = "=0.15.7"
futures = "=0.3.34"
hex = "=0.4.3"
nostr-sdk = "=0.44.1"
p256 = { version = "=0.13.2", features = ["ecdsa"] }
regex-lite = "=0.1.9"
reqwest = { version = "=0.12.28", default-features = false, features = ["json", "multipart", "rustls-tls"] }
secp256k1 = "=0.29.1"
serde = { version = "=1.0.229", features = ["derive"] }
serde_json = "=1.0.154"
sha2 = "=0.10.9"
sqlx = { version = "=0.8.6", default-features = false, features = ["derive", "migrate", "runtime-tokio", "sqlite"] }
thiserror = "=1.0.69"
tokio = { version = "=1.54.1", features = ["full"] }
tower-http = { version = "=0.5.2", features = ["cors", "limit", "trace"] }
tracing = "=0.1.44"
tracing-subscriber = { version = "=0.3.23", features = ["env-filter"] }
uuid = { version = "=1.29.0", features = ["v4"] }
