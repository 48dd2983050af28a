[package]
name = "api_backoff"
version = "0.1.0"
edition = "2021"
publish = false

[dependencies]
chrono = "0.4"
rand = "0.8"
serde_json = "1"
log = "0.4"
tokio = { version = "1", features = ["time"] }
reqwest = { version = "0.11", default-features = false, features = ["rustls-tls"] }
google-youtube3 = "5"
