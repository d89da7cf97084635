[package]
name = "asr_session"
version = "0.1.0"
edition = "2021"
publish = false

[dependencies]
serde_json = "*"
uuid = { version = "*", features = ["v4"] }
tokio = { version = "*", features = ["rt-multi-thread", "macros", "time", "sync", "net", "io-util"] }
tokio-tungstenite = "*"
futures-util = "*"
rusqlite = { version = "*", features = ["bundled"] }
