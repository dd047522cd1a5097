[package]
name = "movie_service"
version = "0.1.0"
edition = "2021"
publish = false

[dependencies]
axum = "0.8"
opentelemetry = "0.29"
opentelemetry-appender-tracing = "0.29"
opentelemetry-otlp = { version = "0.29", default-features = false, features = ["grpc-tonic", "trace", "metrics", "logs"] }
opentelemetry_sdk = "0.29"
prometheus-client = "0.23"
prost = "0.13"
serde = { version = "1", features = ["derive"] }
serde_json = "1"
sysinfo = "0.33"
tokio = { version = "1", features = ["full"] }
tonic = "0.12"
tracing-subscriber = { version = "0.3", features = ["env-filter"] }
uuid = { version = "1", features = ["v4"] }
