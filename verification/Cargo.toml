[package]
name = "chacha_blake3"
version = "0.1.0"
edition = "2021"
publish = false

[dependencies]
aead = "0.5"
blake3 = "1"
chacha20 = "0.9"
zeroize = "1"
