[package]
name = "tft_stat"
version = "0.1.0"
edition = "2021"
publish = false

[dependencies]
anyhow = "1"
chrono = "0.4"
env_logger = "*"
futures = "0.3"
log = "0.4"
mongodb = "1"
riven = "1"
serde_json = "1"
tokio = { version = "0.2", features = ["macros", "rt-threaded", "time"] }
