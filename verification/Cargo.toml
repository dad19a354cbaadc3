[package]
name = "aga3_flow"
version = "0.1.0"
edition = "2021"
publish = false

[dependencies]
aga8 = "=0.5.1"
chrono = "=0.4.45"
clap = { version = "=4.6.7", features = ["derive"] }
env_logger = "=0.11.11"
log = "=0.4.34"
tokio-modbus = { version = "=0.17.0", features = ["sync", "tcp"] }
