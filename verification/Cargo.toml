[package]
name = "task_probe"
version = "0.1.0"
edition = "2021"
publish = false

[dependencies]
serde_json = "1"
serde = { version = "1", features = ["derive"] }
dogstatsd = "*"
dotenv = "*"
meilisearch-sdk = "*"
lambda_runtime = "*"
aws_lambda_events = "*"
tokio = { version = "1", features = ["macros", "rt"] }
time = "*"
