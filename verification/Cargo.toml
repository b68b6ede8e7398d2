[package]
name = "axum-tracing-opentelemetry"
version = "0.1.0"
edition = "2021"
publish = false

[dependencies]
axum = "0.6"
futures = "0.3"
http = "0.2"
opentelemetry = "0.24"
opentelemetry_sdk = "0.24"
opentelemetry-stdout = "0.5"
tower-http = { version = "0.4", features = ["trace"] }
tracing = "0.1"
tracing-opentelemetry = "0.25"
