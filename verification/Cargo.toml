[package]
name = "consensus"
version = "0.1.0"
edition = "2021"
publish = false

[dependencies]
bytes = "1"
rlp = { version = "=0.2.4", default-features = false }
