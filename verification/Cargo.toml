[package]
name = "sniper_studio"
version = "0.1.0"
edition = "2021"
publish = false

[dependencies]
regex = "1"
rhai = "1"
url = "2"
scraper = "*"
chrono = "0.4"
serde = { version = "1", features = ["derive"] }
serde_json = "1"
tokio = { version = "1", features = ["rt-multi-thread", "macros", "process", "time", "sync", "fs", "net", "io-util"] }
clap = { version = "4", features = ["derive"] }
dotenv = "0.15"
dirs = "*"
tracing = "0.1"
tracing-subscriber = { version = "0.3", features = ["env-filter"] }
lazy_static = "1"
anyhow = "1"
thiserror = "*"
base64 = "0.22"
futures = "0.3"
async-trait = "0.1"
chromiumoxide = "*"
