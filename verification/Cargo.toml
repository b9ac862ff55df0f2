[package]
name = "rustpaymentapi"
version = "0.1.0"
edition = "2021"
publish = false

[dependencies]
rand = "0.8"
serde = { version = "1", features = ["derive"] }
actix-web = "4"
opentelemetry = "0.22"
opentelemetry_sdk = { version = "0.22", features = ["rt-tokio-current-thread"] }
opentelemetry-otlp = "0.15"
