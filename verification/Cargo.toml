[package]
name = "veronex"
version = "0.1.0"
edition = "2021"
publish = false

[dependencies]
uuid = { version = "1", features = ["v7"] }
base62 = "2"
blake2 = "0.10"
hex = "0.4"
rand = "0.8"
sha2 = "0.10"
aes-gcm = "0.10"
base64 = "0.22"
argon2 = { version = "0.5", features = ["std"] }
chrono = { version = "0.4", default-features = false, features = ["clock", "std"] }
serde = { version = "1", features = ["derive"] }
serde_json = "1"
