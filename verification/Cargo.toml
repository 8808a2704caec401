[package]
name = "processbot"
version = "0.1.0"
edition = "2021"
publish = false

[dependencies]
base64 = "0.12"
toml = "0.5"
serde = { version = "1", features = ["derive"] }
serde_json = "1"
log = "0.4"
env_logger = "0.7"
snafu = "0.6"
parking_lot = "0.11"
rocksdb = "*"
tokio = { version = "1", features = ["macros", "rt-multi-thread", "time"] }
