[package]
name = "dnscore"
version = "0.1.0"
edition = "2021"
publish = false

[dependencies]
hmac = "0.12"
sha1 = "0.10"
sha2 = "0.10"
base64 = "0.22"
hex = "0.4"
urlencoding = "2"
chrono = "0.4"
rand = "0.8"
serde = { version = "1", features = ["derive"] }
serde_json = "1"
reqwest = { version = "0.12", default-features = false, features = ["blocking", "json", "rustls-tls"] }
aes-gcm = "0.10"
argon2 = "0.5"
zeroize = "1"
