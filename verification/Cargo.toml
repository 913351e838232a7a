[package]
name = "nify"
version = "0.1.0"
edition = "2021"
publish = false

[dependencies]
crossterm = "0.28"
futures-util = "0.3"
ratatui = "0.29"
serde_json = "1"
tokio = { version = "1", features = ["rt-multi-thread", "time", "sync", "macros"] }
tokio-tungstenite = { version = "0.24", features = ["rustls-tls-webpki-roots"] }
