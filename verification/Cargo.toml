[package]
name = "telemetry_core"
version = "0.1.0"
edition = "2021"
publish = false

[dependencies]
serde_json = "*"
serde = { version = "*", features = ["derive"] }
axum = { version = "*", features = ["ws"] }
tokio = { version = "*", features = ["rt-multi-thread", "macros", "time", "net"] }
tower-http = { version = "*", features = ["cors", "compression-gzip", "trace"] }
futures = "*"
prometheus = "*"
chrono = "*"
tracing = "*"
tracing-subscriber = "*"
lazy_static = "*"
