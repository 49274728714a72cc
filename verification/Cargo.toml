[package]
name = "heart_monitor"
version = "0.1.0"
edition = "2021"
publish = false

[dependencies]
chrono = "*"
rand = "*"
serde = { version = "*", features = ["derive"] }
serde_json = "*"
tokio = { version = "*", features = ["rt-multi-thread", "time", "macros", "sync"] }
actix-web = "*"
actix-ws = "*"
actix-cors = "*"
futures = "*"
futures-util = "*"
log = "*"
env_logger = "*"
dotenv = "*"
mongodb = "*"
serialport = { version = "*", default-features = false }
