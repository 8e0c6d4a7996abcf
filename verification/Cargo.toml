[package]
name = "capslock_sync"
version = "0.1.0"
edition = "2021"
publish = false

[dependencies]
tokio = { version = "1", features = ["macros", "rt-multi-thread", "net", "sync", "time"] }
tokio-tungstenite = "*"
futures-util = "0.3"
glob = "0.3"
