[package]
name = "linkerd_app"
version = "0.1.0"
edition = "2021"
publish = false

[dependencies]
futures = "0.1"
hyper = "0.11"
serde = { version = "1", features = ["derive"] }
serde_json = "1"
serde_yaml = "*"
tacho = "*"
tokio-core = "0.1"
tokio-timer = "0.1"
