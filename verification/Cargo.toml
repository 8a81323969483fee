[package]
name = "aws_client_config"
version = "0.1.0"
edition = "2021"
publish = false

[dependencies]
aws-config = { version = "=1.13.0", features = ["behavior-version-latest"] }
aws-sdk-ebs = { version = "=1.117.0", default-features = false, features = ["behavior-version-latest", "default-https-client", "rt-tokio"] }

[dev-dependencies]
tokio = { version = "=1.54.1", features = ["rt"] }
