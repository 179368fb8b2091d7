[package]
name = "eris"
version = "0.1.0"
edition = "2021"
publish = false

[dependencies]
dashmap = "=6.2.1"
uuid = { version = "=1.29.1", features = ["v4", "serde"] }
serde = { version = "=1.0.229", features = ["derive"] }
serde_json = "=1.0.154"
rand = "=0.8.8"
tokio = { version = "=1.54.1", features = ["full"] }
axum = { version = "=0.7.9", features = ["ws"] }
axum-server = { version = "=0.7.3", features = ["tls-rustls-no-provider"] }
futures-util = { version = "=0.3.34", features = ["sink"] }
tokio-tungstenite = { version = "=0.24.0", features = ["rustls-tls-webpki-roots"] }
rustls = { version = "=0.23.46", default-features = false, features = ["ring", "std", "logging", "tls12"] }
rcgen = "=0.13.2"
local-ip-address = "=0.6.13"
qr2term = "=0.3.3"
tower-http = { version = "=0.5.2", features = ["cors", "fs"] }
tracing-subscriber = "=0.3.23"
