[package]
name = "trade_copier"
version = "0.1.0"
edition = "2021"
publish = false

[dependencies]
anyhow = "1"
axum = "0.7"
chrono = { version = "0.4", default-features = false, features = ["clock", "std"] }
clap = { version = "4", features = ["derive"] }
dirs = "5"
env_logger = "0.11"
log = "0.4"
reqwest = { version = "0.12", default-features = false, features = ["json", "rustls-tls"] }
rusqlite = "*"
serde = { version = "1", features = ["derive"] }
serde_json = "1"
socket2 = { version = "0.5", features = ["all"] }
sys-info = "0.9"
tempfile = "3"
tokio = { version = "1", features = ["full"] }
tokio-rusqlite = "*"
tower-http = { version = "0.5", features = ["cors"] }
urlencoding = "2"
