[package]
name = "middle-monitor-sdk"
version = "0.1.0"
edition = "2021"
publish = false

[dependencies]
axum = "0.7"
chrono = "0.4"
opentelemetry = { version = "0.24", features = ["trace", "logs"] }
opentelemetry_sdk = { version = "0.24", features = ["rt-tokio", "trace", "logs"] }
opentelemetry-otlp = { version = "0.17", default-features = false, features = ["http-proto", "reqwest-client", "trace", "logs"] }
opentelemetry-semantic-conventions = "0.16"
rand = "0.8"
reqwest = { version = "0.12", default-features = false, features = ["json"] }
serde_json = "1"
tokio = { version = "1", features = ["rt-multi-thread", "macros"] }
