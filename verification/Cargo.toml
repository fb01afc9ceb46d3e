[package]
name = "tox_node"
version = "0.1.0"
edition = "2021"
publish = false

[dependencies]
clap = "=4.6.7"
env_logger = "=0.11.11"
futures = "=0.3.34"
hex = "=0.4.3"
log = "=0.4.34"
tokio = { version = "=1.53.2", features = ["full"] }
tox = "=0.1.1"
tox_binary_io = "=0.1.1"
