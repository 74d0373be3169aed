[package]
name = "sonic"
version = "0.1.0"
edition = "2021"
publish = false

[dependencies]
base64 = "0.22"
rand = "0.8"
serde_json = "1"
url = "2"
tokio-cron-scheduler = "*"
tokio = { version = "1", features = ["rt-multi-thread", "macros", "time"] }
reqwest = { version = "0.12", default-features = false, features = ["blocking", "json"] }
dotenv = "0.15"
