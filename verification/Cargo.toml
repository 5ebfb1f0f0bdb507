[package]
name = "market_api_server"
version = "0.1.0"
edition = "2021"
publish = false

[dependencies]
percent-encoding = "2"
dashmap = "5"
flate2 = "1"
warp = { version = "0.3", default-features = false }
reqwest = { version = "0.11", default-features = false, features = ["json", "rustls-tls"] }
tokio = { version = "1", features = ["macros", "rt-multi-thread", "time"] }
sqlx = { version = "0.7", default-features = false, features = ["runtime-tokio", "sqlite", "migrate"] }
serde = { version = "1", features = ["derive"] }
serde_json = "1"
chrono = "0.4"
log = "0.4"
env_logger = "0.10"
dotenv = "0.15"
bytes = "1"
rust-embed = "8"
