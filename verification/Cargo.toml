[package]
name = "mihomo_tui"
version = "0.1.0"
edition = "2021"
publish = false

[dependencies]
anyhow = "*"
boa_engine = "*"
boa_runtime = "*"
chrono = "*"
crossterm = { version = "*", features = ["event-stream"] }
directories = "*"
futures = "*"
ratatui = "*"
reqwest = { version = "*", default-features = false, features = ["rustls-tls"] }
serde = { version = "*", features = ["derive"] }
serde_json = { version = "*", features = ["preserve_order"] }
serde_yaml = "*"
tokio = { version = "*", features = ["rt-multi-thread", "macros", "sync", "time", "fs", "io-util"] }
urlencoding = "*"
uuid = { version = "*", features = ["v4"] }
