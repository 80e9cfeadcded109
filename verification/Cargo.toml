[package]
name = "market_maker"
version = "0.1.0"
edition = "2021"
publish = false

[dependencies]
lru = "*"
rand = "*"
tokio = { version = "*", features = ["full"] }
tokio-stream = "*"
tonic = "*"
serde = { version = "*", features = ["derive"] }
serde_json = "*"
clap = { version = "*", features = ["derive"] }
reqwest = { version = "*", default-features = false, features = ["json"] }
chrono = "*"
log = "*"
pretty_env_logger = "*"
