[package]
name = "plenum"
version = "0.1.0"
edition = "2021"
publish = false

[dependencies]
axum = { version = "0.8", default-features = false, features = ["ws", "tokio", "http1"] }
base64 = "0.22"
bytes = "1"
hkdf = "0.12"
hmac = "0.12"
rand = "0.8"
reqwest = { version = "0.12", default-features = false, features = ["json", "rustls-tls"] }
serde = { version = "1", features = ["derive"] }
serde_json = "1"
sha2 = "0.10"
tokio = { version = "1", features = ["full"] }
url = "2"
whoami = "2"
x25519-dalek = { version = "2", features = ["static_secrets"] }
