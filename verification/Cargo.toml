[package]
name = "twilio_stream"
version = "0.1.0"
edition = "2021"
publish = false

[dependencies]
base64 = "=0.21.7"
serde_json = "=1.0.154"
serde = { version = "=1.0.229", features = ["derive"] }
axum = { version = "=0.6.20", features = ["ws"] }
tokio = { version = "=1.54.1", features = ["full"] }
tokio-util = { version = "=0.7.20", features = ["io"] }
futures-util = { version = "=0.3.34", features = ["sink"] }
hyper = { version = "=0.14.32", features = ["client", "http1", "http2"] }
hyper-rustls = { version = "=0.23.2", features = ["http2"] }
dotenvy = "=0.15.7"
xmlserde = "=0.14.0"
xmlserde_derives = "=0.14.0"
async-google-apis-common = "=0.4.0"
