[package]
name = "cita-network"
version = "0.1.0"
edition = "2021"
publish = false

[dependencies]
bytes = "=0.4.12"
fnv = "=1.0.7"
crossbeam-channel = "=0.3.9"
futures = "0.3"
tokio = { version = "1", features = ["rt-multi-thread"] }
tokio-util = { version = "=0.7.18", features = ["codec"] }
log = "0.4"
env_logger = "0.6"
serde = "1.0"
serde_derive = "1.0"
toml = "0.5"
tentacle = "=0.7.7"
