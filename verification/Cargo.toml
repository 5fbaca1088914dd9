[package]
name = "kraken_auth"
version = "0.1.0"
edition = "2021"
publish = false

[dependencies]
base64 = "0.13"
hmac = "0.12"
sha2 = "0.10"
boringauth = "0.9"
serde_urlencoded = "0.7"
serde = { version = "1", features = ["derive"] }
surf = { version = "2", default-features = false, features = ["h1-client-rustls"] }
async-std = "1"
