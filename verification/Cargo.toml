[package]
name = "cryptoauthlib_aead"
version = "0.1.0"
edition = "2021"
publish = false

[dependencies]
log = "0.4"
parsec-interface = "=0.30.0"
rust-cryptoauthlib = "=0.4.5"
