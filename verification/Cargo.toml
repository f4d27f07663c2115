[package]
name = "surf_bridge"
version = "0.1.0"
edition = "2021"
publish = false

[dependencies]
anyhow = "=1.0.104"
bc-envelope = "=0.43.0"
bc-xid = "=0.23.0"
btleplug = "=0.11.8"
clap = { version = "=4.6.7", features = ["derive"] }
dcbor = "=0.25.2"
env_logger = "=0.11.11"
futures = "=0.3.34"
hex = "=0.4.3"
log = "=0.4.35"
serde = { version = "=1.0.229", features = ["derive"] }
serde_json = "=1.0.154"
tokio = { version = "=1.54.1", features = ["rt-multi-thread", "macros", "time"] }
uuid = "=1.29.0"
