[package]
name = "pokertimer"
version = "0.1.0"
edition = "2021"
publish = false

[dependencies]
chrono = { version = "=0.4.45", features = ["serde"] }
uuid = { version = "=1.29.0", features = ["v4", "serde"] }
serde = { version = "=1.0.229", features = ["derive"] }
serde_json = "=1.0.154"
dashmap = "=6.2.1"
async-broadcast = "=0.7.2"
tokio = { version = "=1.54.1", features = ["rt", "macros", "time", "sync", "signal"] }
futures = "=0.3.34"
once_cell = "=1.21.4"
log = "=0.4.34"
axum = { version = "=0.8.9", features = ["ws"] }
axum-server = { version = "=0.8.0", features = ["tls-openssl"] }
env_logger = "=0.11.11"
image = { version = "=0.25.10", default-features = false, features = ["png"] }
qrcode = "=0.14.1"
urlencoding = "=2.1.3"
web-push = "=0.11.0"
