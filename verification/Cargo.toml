[package]
name = "lambda_deployer"
version = "0.1.0"
edition = "2021"
publish = false

[dependencies]
aws_lambda_events = "0.2"
backoff = "0.1"
lambda_runtime = "0.2"
log = "0.4"
rusoto_core = "0.42"
rusoto_lambda = "0.42"
serde_json = "1"
simple_logger = "1"
