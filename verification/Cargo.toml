[package]
name = "radis"
version = "0.1.0"
edition = "2021"
publish = false

[dependencies]
bytes = "1"
mini-redis = "0.4"
oneshot = "0.1"
tokio = { version = "1", features = ["full"] }
