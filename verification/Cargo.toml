[package]
name = "zenobuf"
version = "0.2.0"
edition = "2021"
publish = false

[dependencies]
clap = { version = "*", features = ["derive"] }
console = "*"
serde = { version = "*", features = ["derive"] }
serde_json = "*"
thiserror = "*"
tokio = { version = "*", features = ["rt-multi-thread", "time", "macros"] }
futures = "*"
chrono = "*"
tracing = "*"
tracing-subscriber = "*"
