[package]
name = "for_mqtt"
version = "0.1.0"
edition = "2021"
publish = false

[dependencies]
anyhow = "1"
bytes = "1"
chrono = "0.4"
crossbeam-channel = "0.5"
custom-utils = "*"
directories = "5"
flexi_logger = "*"
for-mqtt-client = "*"
lazy_static = "1"
log = "0.4"
rand = "0.8"
serde = { version = "1", features = ["derive"] }
serde_json = "1"
serde_repr = "0.1"
sled = "0.34"
tokio = { version = "1", features = ["sync", "fs", "rt", "macros"] }
