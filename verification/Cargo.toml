[package]
name = "holocore"
version = "0.1.0"
edition = "2021"
publish = false

[dependencies]
chrono = "=0.4.45"
confy = "=2.0.0"
env_logger = "=0.11.11"
fixed = "=1.31.0"
flume = "=0.11.1"
futures = "=0.3.34"
hex = "=0.4.3"
hmac = "=0.12.1"
log = "=0.4.34"
redis = "=1.8.0"
reqwest = { version = "=0.11.27", default-features = false, features = ["json", "blocking", "rustls-tls"] }
rocket = { version = "=0.5.2", features = ["json"] }
serde = { version = "=1.0.229", features = ["derive"] }
serde_json = "=1.0.154"
sha2 = "=0.10.9"
tokio = { version = "=1.54.1", features = ["full"] }
tokio-tungstenite = { version = "=0.30.0", features = ["rustls-tls-webpki-roots"] }
url = "=2.5.8"
uuid = { version = "=1.29.0", features = ["v4"] }
