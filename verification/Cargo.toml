[package]
name = "backend"
version = "0.1.0"
edition = "2021"
publish = false

[dependencies]
uuid = "*"
chrono = "*"
serde = "*"
serde_json = "*"
tracing = "*"
tracing-appender = "*"
tracing-subscriber = { version = "*", features = ["json"] }

[dev-dependencies]
