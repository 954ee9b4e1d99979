[package]
name = "clip_engine"
version = "0.1.0"
edition = "2021"
publish = false

[dependencies]
crossbeam-channel = "*"
hex = "*"
serde = { version = "*", features = ["derive"] }
serde_json = "*"
