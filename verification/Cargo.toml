[package]
name = "rustic_prometheus_exporter"
version = "0.1.0"
edition = "2021"
publish = false

[dependencies]
rustic_core = { version = "=0.13.0", default-features = false }
rustic_backend = { version = "=0.7.0", default-features = false, features = ["rest", "rclone"] }
reqwest = { version = "=0.13.5", default-features = false }
metrics = "=0.24.6"
metrics-exporter-prometheus = { version = "=0.18.3", default-features = false }
kameo = "=0.22.2"
kameo_actors = "=0.8.1"
tokio = { version = "=1.54.1", features = ["full"] }
axum = "=0.8.9"
config = { version = "=0.15.27", default-features = false, features = ["yaml", "convert-case"] }
clap = { version = "=4.6.7", features = ["derive"] }
serde = { version = "=1.0.229", features = ["derive"] }
humantime-serde = "=1.1.1"
anyhow = "=1.0.104"
tracing = "=0.1.44"
tracing-subscriber = "=0.3.23"
