[package]
name = "observer"
version = "0.1.0"
edition = "2021"
publish = false

[dependencies]
url = "=2.5.8"
uuid = { version = "=1.27.0", features = ["v4"] }
serde = { version = "1", features = ["derive"] }
serde_yaml = "0.9"
argh = "0.1"
reqwest = { version = "=0.11.27", default-features = false }
tokio = { version = "1", features = ["rt", "time", "macros"] }
tracing = "0.1"
tracing-subscriber = "0.3"

[dev-dependencies]
serde_json = "1"
