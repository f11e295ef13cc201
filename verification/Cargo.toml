[package]
name = "crack_engine"
version = "0.1.0"
edition = "2021"
publish = false

[dependencies]
anyhow = "*"
indicatif = "*"
log = "*"
pretty_env_logger = "*"
tokio = { version = "*", features = ["rt-multi-thread", "sync", "signal", "macros", "time"] }
tokio-util = { version = "*", features = ["rt"] }
