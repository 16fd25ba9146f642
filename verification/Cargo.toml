[package]
name = "vatis"
version = "0.1.0"
edition = "2021"
publish = false

[dependencies]
env_logger = "*"
futures = "*"
linux-stats = "*"
log = "*"
paho-mqtt = "*"
tokio = { version = "*", features = ["rt-multi-thread", "macros", "time", "signal"] }
