[package]
name = "olivier"
version = "0.1.0"
edition = "2021"
publish = false

[dependencies]
anyhow = "=1.0.104"
axum = "=0.8.9"
chrono = "=0.4.45"
http = "=1.5.0"
sea-orm = { version = "=2.0.4", features = ["postgres-array"] }
serde = { version = "=1.0.229", features = ["derive"] }
tokio = { version = "=1.53.2", features = ["macros", "rt-multi-thread", "net", "signal", "time"] }
tokio-graceful-shutdown = "=0.20.0"
tower-http = { version = "=0.7.1", features = ["trace", "cors", "propagate-header", "compression-gzip", "decompression-gzip"] }
tracing = "=0.1.44"
tracing-appender = "=0.2.5"
tracing-log = "=0.2.0"
tracing-subscriber = { version = "=0.3.23", features = ["env-filter", "json"] }
