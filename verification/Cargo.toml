[package]
name = "fitflow_auth"
version = "0.1.0"
edition = "2021"
publish = false

[dependencies]
validator = "=0.21.0"
serde = { version = "=1.0.229", features = ["derive"] }
color-eyre = "=0.6.5"

[dev-dependencies]
serde_json = "=1.0.154"
