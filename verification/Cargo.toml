[package]
name = "shipcat"
version = "0.1.0"
edition = "2021"
publish = false

[dependencies]
serde = { version = "=1.0.229", features = ["derive"] }
serde_json = "=1.0.154"
tera = { version = "=1.20.1", default-features = false }
dirs = "=5.0.1"
chrono = { version = "0.4", default-features = false, features = ["clock", "std"] }
humantime = "2"
