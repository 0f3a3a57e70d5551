[package]
name = "webcrypto"
version = "0.1.0"
edition = "2021"
publish = false

[dependencies]
rand = "0.8"
rsa = "0.9"
sha1 = { version = "0.10", features = ["oid"] }
sha2 = { version = "0.10", features = ["oid"] }
uuid = "1"
