[package]
name = "jwst_sync"
version = "0.1.0"
edition = "2021"
publish = false

[dependencies]
url = "=2.5.8"
yrs = "=0.16.10"
lib0 = { version = "=0.16.10", features = ["lib0-serde"] }
tokio-tungstenite = "=0.18.0"
tokio = { version = "=1.54.1", features = ["full"] }
futures = "=0.3.34"
reqwest = { version = "=0.11.27", default-features = false }
android_logger = "=0.13.3"
log = "=0.4.35"
serde = { version = "=1.0.229", features = ["derive"] }
