[package]
name = "adc_monitor"
version = "0.1.0"
edition = "2021"
publish = false

[dependencies]
base64 = "=0.22.1"
rand = "=0.8.8"
async-stream = "=0.3.6"
axum = "=0.7.9"
dotenv = "=0.15.0"
futures = "=0.3.34"
reqwest = "=0.12.28"
rppal = "=0.22.1"
serde = { version = "=1.0.229", features = ["derive"] }
serde_json = "=1.0.154"
tokio = { version = "=1.54.1", features = ["full"] }
tower-http = { version = "=0.5.2", features = ["fs"] }
