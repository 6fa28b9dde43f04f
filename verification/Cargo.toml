[package]
name = "config_chain"
version = "0.1.0"
edition = "2021"
publish = false

[dependencies]
clap = "4"
serde_json = { version = "1", features = ["preserve_order"] }
log = "0.4"
env_logger = "*"

[dev-dependencies]
tempfile = "3"
