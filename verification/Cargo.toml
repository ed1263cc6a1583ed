[package]
name = "activitypub_delivery"
version = "0.1.0"
edition = "2021"
publish = false

[dependencies]
axum = "0.7"
axum-macros = "0.4"
httpdate = "1"
openssl = "0.10"
reqwest = "0.12"
serde_json = "1"
tokio = { version = "1", features = ["full"] }
tower = "0.5"
tower-http = { version = "0.6", features = ["normalize-path", "timeout", "trace"] }
tracing = "0.1"
tracing-subscriber = { version = "0.3", features = ["env-filter", "json"] }
