[package]
name = "libp2p_builder_phase"
version = "0.1.0"
edition = "2021"
publish = false

[dependencies]
either = "1"
libp2p-core = "*"
libp2p-identity = { version = "*", features = ["ed25519", "rand", "peerid"] }
