[package]
name = "github_tui"
version = "0.1.0"
edition = "2021"
publish = false

[dependencies]
anyhow = "=1.0.104"
chrono = "=0.4.45"
clap = { version = "=4.6.7", features = ["derive"] }
crossterm = { version = "=0.28.1", features = ["event-stream"] }
dirs = "=5.0.1"
futures = "=0.3.34"
octocrab = "=0.41.2"
rand = "=0.8.8"
ratatui = "=0.29.0"
reqwest = { version = "=0.12.28", default-features = false, features = ["json", "rustls-tls"] }
serde = { version = "=1.0.229", features = ["derive"] }
serde_json = "=1.0.154"
tokio = { version = "=1.54.1", features = ["full"] }
zip = { version = "=2.6.1", default-features = false, features = ["deflate"] }
