[package]
name = "forecast"
version = "0.1.0"
edition = "2021"
publish = false

[dependencies]
reqwest = { version = "*", default-features = false }
serde = { version = "1", features = ["derive"] }
serde_derive = "1"
serde_json = "1"
