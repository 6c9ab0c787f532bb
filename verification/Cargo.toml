[package]
name = "sunk"
version = "0.1.0"
edition = "2021"
publish = false

[dependencies]
failure = "0.1"
hyper = { version = "0.11", default-features = false }
serde_json = "1"
