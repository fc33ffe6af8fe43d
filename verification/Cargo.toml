[package]
name = "ride_mode"
version = "0.1.0"
edition = "2021"
publish = false

[dependencies]
serde = { version = "1", features = ["derive"] }
serde_json = "1"
chrono = "0.4"
redis = "*"
tokio = { version = "1", features = ["macros", "rt-multi-thread"] }
lambda_runtime = "*"
aws-config = "1"
aws-sdk-sns = "1"
syn = "2"
quote = "1"
proc-macro2 = "1"
