[package]
name = "platform_macos"
version = "0.1.0"
edition = "2021"
publish = false

[dependencies]
anyhow = "1"
async-trait = "0.1"
core-foundation = "0.10"
core-graphics = "0.24"
screencapturekit = "*"
serde_json = "1"
tokio = { version = "1", features = ["sync", "time", "rt", "macros"] }
tracing = "0.1"
uuid = { version = "1", features = ["v4"] }
