[package]
name = "rust_ac"
version = "0.1.0"
edition = "2021"
publish = false

[dependencies]
anyhow = "=1.0.104"
chrono = "=0.4.45"
crossbeam = "=0.8.5"
csv = "=1.4.0"
env_logger = "=0.11.11"
futures-util = "=0.3.34"
log = "=0.4.34"
portpicker = "=0.1.1"
protobuf = "=1.7.5"
regex = "=1.13.1"
sc2-proto = "=0.1.8"
serde = { version = "=1.0.229", features = ["derive"] }
serde_json = "=1.0.154"
shellexpand = "=3.1.2"
tempfile = "=3.27.0"
tokio = { version = "=1.54.1", features = ["full"] }
tokio-tungstenite = "=0.30.0"
