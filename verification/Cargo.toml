[package]
name = "cli_bridge"
version = "0.1.0"
edition = "2021"
publish = false

[dependencies]
chrono = "*"
tokio = { version = "*", features = ["process", "io-util", "time", "rt", "rt-multi-thread"] }
tracing = "*"
