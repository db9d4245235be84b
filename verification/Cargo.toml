[package]
name = "exonum_handshake"
version = "0.1.0"
edition = "2021"
publish = false

[dependencies]
snow = "*"
ed25519-dalek = "*"
sha2 = "*"
