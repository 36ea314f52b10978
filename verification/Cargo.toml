[package]
name = "threat_exchange"
version = "0.1.0"
edition = "2021"
publish = false

[dependencies]
rust-crypto = "*"
rand = "0.8"
