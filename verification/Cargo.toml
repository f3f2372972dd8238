[package]
name = "urn_acoustics_backend"
version = "0.1.0"
edition = "2021"
publish = false

[dependencies]
dashmap = "=6.2.1"
tokio = { version = "=1.54.1", features = ["full"] }
axum = { version = "=0.7.9", features = ["ws"] }
tower-http = { version = "=0.5.2", features = ["fs", "cors", "compression-gzip", "trace", "set-header"] }
tracing = "=0.1.44"
tracing-subscriber = { version = "=0.3.23", features = ["env-filter"] }
serde = { version = "=1.0.229", features = ["derive"] }
serde_json = "=1.0.154"
chrono = { version = "=0.4.45", features = ["serde"] }
uuid = { version = "=1.29.0", features = ["v4", "serde"] }
clickhouse = { version = "=0.11.6", features = ["uuid"] }
rumqttc = { version = "=0.24.0", default-features = false }
futures-util = "=0.3.34"
once_cell = "=1.21.4"
metrics = "0.21"
