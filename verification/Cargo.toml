[package]
name = "live_collab"
version = "0.1.0"
edition = "2021"
publish = false

[dependencies]
base64 = "=0.21.7"
bytes = "=1.12.1"
crossbeam = "=0.8.5"
serde = { version = "=1.0.229", features = ["derive"] }
serde_json = "=1.0.154"
tokio = { version = "=1.54.1", features = ["rt-multi-thread", "sync", "io-util", "time"] }
webrtc = "=0.14.0"
