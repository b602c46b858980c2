[package]
name = "basin"
version = "0.1.0"
edition = "2021"
publish = false

[dependencies]
regex = "=1.13.1"
shell-escape = "=0.1.5"
anyhow = "=1.0.104"
async-trait = "=0.1.92"
aws-config = "=1.13.0"
aws-sdk-glue = "=1.177.0"
aws-sdk-s3 = "=0.38.0"
aws-sdk-sqs = "=1.114.0"
axum = "=0.8.9"
config = { version = "=0.15.27", default-features = false, features = ["toml"] }
redis = { version = "=1.8.0", features = ["tokio-comp"] }
reqwest = { version = "=0.13.5", features = ["json"] }
serde = { version = "=1.0.229", features = ["derive"] }
serde_json = "=1.0.154"
thiserror = "=2.0.21"
tokio = { version = "=1.54.1", features = ["full"] }
tracing = "=0.1.44"
tracing-subscriber = "=0.3.23"
