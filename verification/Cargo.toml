[package]
name = "zim_downloader"
version = "0.1.0"
edition = "2021"
publish = false

[dependencies]
anyhow = "*"
chrono = "*"
crossterm = "*"
dirs = "*"
futures-util = "*"
humansize = "*"
ratatui = "*"
reqwest = { version = "*", default-features = false, features = ["rustls-tls", "stream"] }
serde = { version = "*", features = ["derive"] }
serde_json = "*"
tokio = { version = "*", features = ["rt", "rt-multi-thread", "macros", "sync", "time", "fs", "io-util"] }
toml = "*"
