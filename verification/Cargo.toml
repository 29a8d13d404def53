[package]
name = "tokencode"
version = "0.1.0"
edition = "2021"
publish = false

[dependencies]
base64 = "=0.22.1"
bytes = "1"
eventsource-stream = "0.2"
futures = "0.3"
http = "=1.5.0"
rand = "0.9"
serde_json = { version = "=1.0.154", features = ["float_roundtrip"] }
thiserror = "2"
tokio = { version = "1", features = ["rt", "sync", "time"] }
tracing = "0.1"
uuid = { version = "=1.29.0", features = ["v4"] }
