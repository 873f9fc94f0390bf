[package]
name = "reqactor"
version = "0.1.0"
edition = "2021"
publish = false

[dependencies]
base64 = "0.22"
bincode = "1.3"
flate2 = "1"
tokio = { version = "1", features = ["rt", "rt-multi-thread", "sync", "time", "macros"] }
chrono = "0.4"
serde_json = "1"
tracing = "0.1"
