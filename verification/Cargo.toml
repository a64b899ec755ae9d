[package]
name = "serwasm"
version = "0.1.0"
edition = "2021"
publish = false

[dependencies]
anyhow = "1"
redis = { version = "*", features = ["tokio-comp"] }
tokio = { version = "1", features = ["rt", "macros", "net", "time"] }
tokio-stream = { version = "0.1", features = ["net"] }
tonic = "0.14"
tonic-health = "0.14"
