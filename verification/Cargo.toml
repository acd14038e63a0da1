[package]
name = "aws_secretsmanager_agent"
version = "0.1.0"
edition = "2021"
publish = false

[dependencies]
config = { version = "*", default-features = false, features = ["toml"] }
serde = { version = "1", features = ["derive"] }
serde_derive = "1"
