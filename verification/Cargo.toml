[package]
name = "demo-observe-rs"
version = "0.1.0"
edition = "2021"
publish = false

[dependencies]
anyhow = "1"
axum = "=0.7.9"
clap = { version = "4", features = ["derive"] }
dotenvy = "0.15"
http = "=1.5.0"
log = "=0.4.34"
opentelemetry = { version = "=0.24.0", features = ["logs", "logs_level_enabled", "metrics", "trace"] }
opentelemetry-appender-log = "=0.5.0"
opentelemetry-http = "=0.13.0"
opentelemetry-otlp = { version = "=0.17.0", features = ["logs", "metrics", "trace"] }
opentelemetry_sdk = { version = "=0.24.1", features = ["logs", "logs_level_enabled", "metrics", "trace", "rt-tokio"] }
reqwest = { version = "=0.12.28", default-features = false }
tokio = { version = "1", features = ["full"] }
tower-http = { version = "=0.5.2", features = ["trace", "sensitive-headers"] }
tracing = "0.1"
tracing-opentelemetry = "=0.25.0"
tracing-subscriber = { version = "0.3", features = ["env-filter", "json"] }
twelf = "=0.15.0"
