[package]
name = "s3_runner"
version = "0.1.0"
edition = "2021"
publish = false

[dependencies]
aws-sdk-s3 = { version = "1", features = ["behavior-version-latest"] }
dotenv = "0.15"
tokio = { version = "1", features = ["macros", "rt-multi-thread"] }
