[package]
name = "privateer_core"
version = "0.1.0"
edition = "2021"
publish = false

[dependencies]
url = "2"
transmission-rpc = "0.5"
tokio = { version = "1", features = ["fs", "time", "sync", "rt-multi-thread", "macros"] }
serde = { version = "1", features = ["derive"] }
serde_json = "1"
snafu = "0.8"
log = "0.4"
env_logger = { version = "0.11", default-features = false }
human-repr = "1"
