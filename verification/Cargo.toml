[package]
name = "chat_client"
version = "0.1.0"
edition = "2021"
publish = false

[dependencies]
anyhow = "=1.0.104"
bytes = "=1.12.1"
chrono = "=0.4.45"
log = "=0.4.34"
reqwest = { version = "=0.11.27", features = ["multipart", "stream", "socks"] }
serde_json = "=1.0.154"
tokio = { version = "=1.54.1", features = ["fs"] }
tokio-util = { version = "=0.7.20", features = ["codec"] }
uuid = { version = "=1.29.0", features = ["v4"] }
