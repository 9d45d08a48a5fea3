[package]
name = "automagic"
version = "0.1.0"
edition = "2021"
publish = false

[dependencies]
chrono = "0.4"
futures-util = "0.3"
serde = { version = "1", features = ["derive"] }
serde_json = "1"
tokio = { version = "1", features = ["rt", "rt-multi-thread", "macros", "sync", "time", "net"] }
tokio-tungstenite = "0.21"
tokio-util = "0.7"
toml = "0.8"
tracing = "0.1"
trait-variant = "0.1"
url = "2"
