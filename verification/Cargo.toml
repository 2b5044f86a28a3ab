[package]
name = "dyingstar_plugins"
version = "0.1.0"
edition = "2021"
publish = false

[dependencies]
horizon_event_system = "=0.23.0"
luminal_rt = "=0.4.1"
dashmap = "=6.2.1"
uuid = { version = "=1.29.1", features = ["v4", "serde"] }
serde = { version = "=1.0.229", features = ["derive"] }
serde_json = "=1.0.154"
chrono = { version = "=0.4.45", features = ["serde"] }
tokio = { version = "=1.54.1", features = ["full"] }
tracing = "=0.1.44"
tracing-appender = "=0.2.5"
tracing-subscriber = "=0.3.23"
async-trait = "=0.1.92"
reqwest = { version = "=0.13.5", default-features = false, features = ["json"] }
websocket = { version = "=0.27.1", default-features = false, features = ["sync"] }
