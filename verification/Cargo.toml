[package]
name = "my-neversea-2025"
version = "0.1.0"
edition = "2021"
publish = false

[dependencies]
multiversx-sc = "=0.55.0"
multiversx-sc-scenario = "=0.55.0"
multiversx-sc-snippets = "=0.55.0"
env_logger = "0.11"
serde = { version = "1", features = ["derive"] }
tokio = { version = "1", features = ["full"] }
toml = "0.8"
