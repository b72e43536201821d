[package]
name = "ndc_sdk"
version = "0.1.0"
edition = "2021"
publish = false

[dependencies]
serde_json = "1"
serde = { version = "1", features = ["derive"] }
indexmap = { version = "*", features = ["serde"] }
