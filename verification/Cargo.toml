[package]
name = "traceagg"
version = "0.1.0"
edition = "2021"
publish = false

[dependencies]
axum = "=0.8.9"
chrono = { version = "=0.4.45", features = ["serde"] }
opentelemetry = "=0.32.0"
opentelemetry-datadog = "=0.20.1"
opentelemetry_sdk = { version = "=0.32.1", features = ["rt-tokio"] }
reqwest = { version = "=0.13.5", default-features = false, features = ["json"] }
serde = { version = "=1.0.229", features = ["derive"] }
tokio = { version = "=1.53.2", features = ["macros", "rt-multi-thread", "net"] }
tracing = "=0.1.44"
tracing-opentelemetry = "=0.33.0"
tracing-subscriber = { version = "=0.3.23", features = ["env-filter", "json", "fmt"] }
