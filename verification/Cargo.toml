[package]
name = "pubsub_relay"
version = "0.1.0"
edition = "2021"
publish = false

[dependencies]
aes-gcm = "0.10"
base64 = "0.21"
futures-util = "0.3"
log = "0.4"
pretty_env_logger = "0.5"
tokio = { version = "1", features = ["full"] }
tokio-stream = "0.1"
warp = { version = "0.3", features = ["tls"] }
