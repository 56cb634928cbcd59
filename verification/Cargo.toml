[package]
name = "protocol"
version = "0.1.0"
edition = "2021"
publish = false

[dependencies]
failure = "=0.1.8"
serde = "=1.0.229"
serde_json = "=1.0.154"
