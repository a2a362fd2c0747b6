[package]
name = "webtoken"
version = "0.1.0"
edition = "2021"
publish = false

[dependencies]
argon2 = { version = "0.5", features = ["std"] }
scrypt = "0.11"
pasetors = "0.7"
opaque-ke = { version = "4", features = ["argon2"] }
sha2 = "0.10"
hex = "0.4"
base64 = "0.22"
chrono = "0.4"
serde = { version = "1", features = ["derive"] }
serde_json = "1"
rand = "0.8"
napi = { version = "2", features = ["async", "serde-json"] }
napi-derive = "2"
tokio = { version = "1", features = ["rt"] }
