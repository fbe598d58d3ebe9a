[package]
name = "greeter"
version = "0.1.0"
edition = "2021"
publish = false

[dependencies]
serde_json = "1"
lambda_http = "*"
tokio = { version = "*", features = ["macros", "rt-multi-thread"] }
