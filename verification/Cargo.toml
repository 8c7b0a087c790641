[package]
name = "sageturner"
version = "0.1.0"
edition = "2021"
publish = false

[dependencies]
anyhow = "=1.0.104"
argh = "=0.1.19"
base64 = "=0.23.1"
bollard = "=0.21.1"
chrono = "=0.4.45"
futures-util = "=0.3.34"
serde = { version = "=1.0.229", features = ["derive"] }
serde_yaml = "=0.9.34"
tar = "=0.4.46"
tempfile = "=3.27.0"
tokio = { version = "=1.53.2", features = ["macros", "rt-multi-thread"] }
