[package]
name = "oracle_core"
version = "0.1.0"
edition = "2021"
publish = false

[dependencies]
ergo-lib = "=0.27.1"
base64 = "=0.13.1"
reqwest = { version = "=0.12.28", default-features = false, features = ["blocking", "rustls-tls"] }
serde = { version = "=1.0.229", features = ["derive"] }
serde_json = "=1.0.154"
url = "=2.5.8"
thiserror = "=1.0.69"
derive_more = "=0.99.20"
log = { version = "=0.4.34", features = ["serde"] }
