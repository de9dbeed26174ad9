[package]
name = "cloudwatch_viewer_web_api"
version = "0.1.0"
edition = "2021"
publish = false

[dependencies]
aws-config = "1"
aws-sdk-cloudwatchlogs = "1"
axum = "0.7"
color-eyre = "0.6"
datafusion = { version = "43", default-features = false, features = ["parquet"] }
dotenvy = "0.15"
itertools = "0.13"
serde = { version = "1", features = ["derive"] }
thiserror = "1"
tokio = { version = "1", features = ["full"] }
tokio-stream = "0.1"
tracing = "0.1"
tracing-error = "0.2"
tracing-subscriber = { version = "0.3", features = ["env-filter"] }
uuid = { version = "1", features = ["v4"] }
