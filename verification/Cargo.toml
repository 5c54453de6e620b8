[package]
name = "revolt_rs"
version = "0.1.0"
edition = "2021"
publish = false

[dependencies]
reqwest = "0.11"
rusty_ulid = "*"
serde_json = "1"
thiserror = "1"
