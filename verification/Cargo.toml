[package]
name = "identity_kdf"
version = "0.1.0"
edition = "2021"
publish = false

[dependencies]
pbkdf2 = "0.12"
hmac = "0.12"
sha2 = "0.10"
hkdf = "0.12"
rust-argon2 = "*"
