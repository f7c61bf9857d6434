[package]
name = "auto_mode"
version = "0.1.0"
edition = "2021"
publish = false

[dependencies]
async-trait = "=0.1.92"
serde = { version = "=1.0.229", features = ["derive"] }
serde_json = "=1.0.154"
tokio = { version = "=1.54.1", features = ["sync", "rt", "macros", "time"] }
tokio-util = "=0.7.20"
uuid = { version = "=1.29.0", features = ["v4"] }
