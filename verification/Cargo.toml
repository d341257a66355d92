[package]
name = "komorebi"
version = "0.1.0"
edition = "2021"
publish = false

[dependencies]
serde = { version = "1", features = ["derive"] }
serde_json = "1"
dirs = "4"
tracing = "0.1"
parking_lot = "0.12"
