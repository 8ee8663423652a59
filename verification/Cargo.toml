[package]
name = "angel_core"
version = "0.1.0"
edition = "2021"
publish = false

[dependencies]
base64 = "=0.23.1"
serde_json = "=1.0.151"
serde = { version = "=1.0.229", features = ["derive"] }
tokio = { version = "=1.53.2", features = ["full"] }
axum = { version = "=0.8.9", features = ["ws"] }
dashmap = "=6.2.1"
futures = "=0.3.34"
reqwest = { version = "=0.13.5", default-features = false, features = ["json"] }
tokio-tungstenite = "=0.30.0"
tower-http = { version = "=0.7.1", features = ["cors"] }
tracing = "=0.1.44"
tracing-subscriber = "=0.3.23"
