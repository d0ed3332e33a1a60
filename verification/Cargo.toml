[package]
name = "rserial"
version = "0.1.0"
edition = "2021"
publish = false

[dependencies]
anyhow = "1"
chrono = { version = "0.4", default-features = false, features = ["std", "now", "serde"] }
dirs = "5"
encoding_rs = "0.8"
env_logger = { version = "0.11", default-features = false }
futures-util = "0.3"
log = "0.4"
reqwest = { version = "0.12", default-features = false, features = ["json", "stream"] }
serde = { version = "1", features = ["derive"] }
serde_json = "1"
serialport = { version = "4", default-features = false }
tokio = { version = "1", features = ["rt"] }
