[package]
name = "speedcli"
version = "0.1.0"
edition = "2021"
publish = false

[dependencies]
anyhow = "1"
crossterm = { version = "*", features = ["event-stream"] }
futures = "0.3"
libc = "0.2"
rand = "0.8"
ratatui = "*"
ratatui-textarea = { version = "*", features = ["search"] }
reqwest = { version = "0.12", default-features = false, features = ["rustls-tls"] }
serde = { version = "1", features = ["derive"] }
serde_json = "1"
tokio = { version = "1", features = ["full"] }
