[package]
name = "buttplug"
version = "0.1.0"
edition = "2021"
publish = false

[dependencies]
tokio = { version = "1", default-features = false, features = ["sync"] }
futures = "0.3"
tracing = "0.1"
