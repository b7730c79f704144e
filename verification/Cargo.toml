[package]
name = "screenstub"
version = "0.1.0"
edition = "2021"
publish = false

[dependencies]
input-linux = { version = "=0.7.1", features = ["serde"] }
clap = "=2.34.0"
env_logger = "=0.11.11"
failure = "=0.1.8"
futures = "=0.3.34"
log = "=0.4.34"
serde = { version = "=1.0.229", features = ["derive"] }
serde_yaml = "=0.9.34"
tokio = { version = "=1.54.1", features = ["full"] }
