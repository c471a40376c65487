[package]
name = "soldag"
version = "0.1.0"
edition = "2021"
publish = false

[dependencies]
anyhow = "*"
axum = "*"
chrono = "*"
clap = { version = "*", features = ["derive", "env"] }
color-eyre = "*"
dotenv = "*"
env_logger = "*"
eyre = "*"
log = "*"
mongodb = "*"
serde = { version = "*", features = ["derive"] }
serde_json = "*"
solana-pubkey = "*"
tokio = { version = "*", features = ["macros", "rt-multi-thread", "sync", "time"] }
url = "*"
