[package]
name = "orchestrator_client"
version = "0.1.0"
edition = "2021"
publish = false

[dependencies]
anyhow = "1"
async-stream = "0.3"
axum = "0.7"
clap = { version = "4", features = ["derive", "env"] }
futures = "0.3"
ginepro = "0.8"
http = "1"
hyper = { version = "1", features = ["full"] }
hyper-rustls = { version = "0.27", features = ["http2"] }
hyper-util = { version = "0.1", features = ["full"] }
opentelemetry = "0.24"
opentelemetry-http = { version = "0.13", features = ["hyper"] }
opentelemetry-otlp = { version = "0.17", features = ["http-proto", "metrics"] }
opentelemetry_sdk = { version = "0.24", features = ["rt-tokio"] }
reqwest = { version = "0.12", default-features = false, features = ["json"] }
rustls = "0.23"
rustls-pemfile = "2"
serde = { version = "1", features = ["derive"] }
serde_json = "1"
tokio = { version = "1", features = ["full"] }
tonic = "0.12"
tower = { version = "0.4", features = ["util"] }
tower-http = { version = "0.5", features = ["trace"] }
tower-http-client = "0.4"
tower-reqwest = "0.4"
tracing = "0.1"
tracing-opentelemetry = "0.25"
tracing-subscriber = { version = "0.3", features = ["env-filter", "json"] }
url = "2"
uuid = { version = "1", features = ["v4"] }
