[package]
name = "deepgram"
version = "0.5.0"
edition = "2021"
publish = false

[dependencies]
bytes = "1"
futures = "0.3"
http = "0.2"
pin-project = "1"
reqwest = { version = "0.11", default-features = false, features = ["json", "stream"] }
serde = { version = "1", features = ["derive"] }
serde_json = "1"
serde_urlencoded = "0.7"
thiserror = "1"
tokio = { version = "1", features = ["fs", "macros", "rt", "rt-multi-thread", "sync", "time"] }
tokio-tungstenite = "0.20"
tokio-util = { version = "0.7", features = ["io"] }
tungstenite = "0.20"
url = "2"
uuid = { version = "1", features = ["serde"] }
