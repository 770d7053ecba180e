[package]
name = "openshell_telemetry"
version = "0.1.0"
edition = "2021"
publish = false

[dependencies]
itoa = "1"
opentelemetry = { version = "0.31", features = ["logs", "trace"] }
opentelemetry-otlp = { version = "0.31", default-features = false, features = ["logs", "trace", "grpc-tonic", "tls-ring", "tls-webpki-roots"] }
opentelemetry_sdk = { version = "0.31", features = ["logs", "trace", "testing"] }
ryu = "1"
serde = { version = "1", features = ["derive"] }
serde_json = "1"
serde_repr = "0.1"
tokio = { version = "1", features = ["sync", "rt", "rt-multi-thread", "time", "macros"] }
tonic = "0.14"
tracing = "0.1"
tracing-opentelemetry = "0.32"
tracing-subscriber = { version = "0.3", features = ["env-filter"] }
