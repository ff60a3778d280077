[package]
name = "kitt_protocol"
version = "0.1.0"
edition = "2021"
publish = false

[dependencies]
serde = { version = "=1.0.229", features = ["derive"] }
serde_json = { version = "=1.0.154", features = ["raw_value"] }
uuid = { version = "=1.29.1", features = ["v4"] }
