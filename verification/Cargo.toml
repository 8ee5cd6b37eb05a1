[package]
name = "mosaik_rust_api"
version = "0.1.0"
edition = "2021"
publish = false

[dependencies]
serde = { version = "1", features = ["derive"] }
serde_json = "1"
async-std = "1"
futures = "0.3"
log = "0.4"
