[package]
name = "opaque_core"
version = "0.1.0"
edition = "2021"
publish = false

[dependencies]
curve25519-dalek = "*"
sha2 = "*"
rand = "*"
