[package]
name = "cri_server"
version = "0.1.0"
edition = "2021"
publish = false

[dependencies]
tokio = { version = "1", features = ["signal", "net", "rt", "macros", "fs"] }
log = "0.4"
env_logger = "0.11"
