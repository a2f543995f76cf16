[package]
name = "ble_central"
version = "0.1.0"
edition = "2021"
publish = false

[dependencies]
btleplug = "*"
env_logger = "*"
futures = "0.3"
log = "0.4"
tokio = { version = "1", features = ["macros", "rt-multi-thread", "time"] }
