[package]
name = "web_backend"
version = "0.1.0"
edition = "2021"
publish = false

[dependencies]
argon2 = "=0.5.3"
base64 = "=0.22.1"
hmac = "=0.12.1"
sha2 = "=0.10.9"
time = { version = "=0.3.55", features = ["formatting", "parsing"] }
uuid = "=1.29.1"
serde = { version = "=1.0.229", features = ["derive"] }
serde_json = "=1.0.154"
regex-syntax = { version = "0.8", default-features = false, features = ["std", "unicode-perl"] }
