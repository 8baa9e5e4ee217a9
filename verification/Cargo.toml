[package]
name = "ditto_tui"
version = "0.1.0"
edition = "2021"
publish = false

[dependencies]
anyhow = "*"
async-shutdown = "*"
clap = { version = "*", features = ["derive", "env"] }
crossterm = { version = "*", features = ["event-stream"] }
dotenvy = "*"
flume = "*"
futures = "*"
futures-concurrency = "*"
indexmap = { version = "*", features = ["serde"] }
ratatui = "*"
resolve-path = "*"
serde = { version = "*", features = ["derive"] }
serde_json = "*"
serde_yaml = "*"
tokio = { version = "*", features = ["full"] }
tokio-stream = "*"
tracing = "*"
tracing-subscriber = "*"
uuid = { version = "*", features = ["v4"] }
