[package]
name = "gateway"
version = "0.1.0"
edition = "2021"
publish = false

[dependencies]
anyhow = "1"
axum = "=0.7.9"
axum-prometheus = "0.7"
axum-tracing-opentelemetry = "0.24"
base64 = "=0.22.1"
hmac = "=0.12.1"
redis = { version = "0.27", features = ["tokio-comp", "connection-manager", "script"] }
serde = { version = "1", features = ["derive"] }
serde_json = "1"
serde_urlencoded = "=0.7.1"
sha2 = "=0.10.9"
tokio = { version = "1", features = ["full"] }
tonic = "=0.12.3"
tower-http = { version = "0.6", features = ["request-id", "trace"] }
tracing = "0.1"
