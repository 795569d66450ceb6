[package]
name = "irontide"
version = "0.1.0"
edition = "2021"
publish = false

[dependencies]
feed-rs = "*"
clap = { version = "*", features = ["derive"] }
reqwest = { version = "*", features = ["blocking"] }
env_logger = "*"
log = "*"
chrono = "*"
colored = "*"
