[package]
name = "rust_encrypt"
version = "0.1.0"
edition = "2021"
publish = false

[dependencies]
argon2 = "0.5"
libaes = "0.7"
rand = "0.8"
sha2 = "0.10"
