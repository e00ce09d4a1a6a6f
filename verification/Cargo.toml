[package]
name = "dirserve"
version = "0.1.0"
edition = "2021"
publish = false

[dependencies]
axum = "0.7"
log = "0.4"
pretty_env_logger = "0.5"
tempfile = "3"
thiserror = "1"
tokio = { version = "1", features = ["full"] }
