[package]
name = "social_client"
version = "0.1.0"
edition = "2021"
publish = false

[dependencies]
rand = "0.8"
tokio = { version = "1", features = ["full"] }
clap = { version = "4", features = ["derive"] }
serde_json = "1"
log = "0.4"
env_logger = "0.10"
async-trait = "0.1"
futures-util = "0.3"
dcl-rpc = "*"
