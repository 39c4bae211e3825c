[package]
name = "libreauth"
version = "0.1.0"
edition = "2021"
publish = false

[dependencies]
pbkdf2 = { version = "=0.3.0", default-features = false }
hmac = "0.7"
sha-1 = "0.8"
sha2 = "0.8"
rand = "=0.8.8"
