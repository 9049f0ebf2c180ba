[package]
name = "lab_builder"
version = "0.1.0"
edition = "2021"
publish = false

[dependencies]
axum = { version = "=0.8.9", features = ["multipart"] }
chrono = { version = "=0.4.45", features = ["serde"] }
dotenvy = "0.15"
flate2 = "=1.1.10"
gcp_auth = "0.12"
reqwest = { version = "=0.12.28", default-features = false, features = ["json", "rustls-tls"] }
serde = { version = "1", features = ["derive"] }
serde_json = "=1.0.154"
tar = "=0.4.46"
thiserror = "2"
tokio = { version = "1", features = ["full"] }
tower-http = { version = "0.6", features = ["cors", "trace"] }
tracing = "0.1"
tracing-subscriber = { version = "0.3", features = ["env-filter"] }
urlencoding = "=2.1.3"
uuid = { version = "=1.29.0", features = ["v4", "v5", "serde"] }
