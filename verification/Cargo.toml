[package]
name = "ws_engine"
version = "0.1.0"
edition = "2021"
publish = false

[dependencies]
uuid = { version = "*", features = ["v4"] }
tokio = { version = "*", default-features = false, features = ["rt-multi-thread", "net", "sync", "time", "macros"] }
tokio-tungstenite = "*"
futures-util = "*"
