[package]
name = "dsmr_bridge"
version = "0.1.0"
edition = "2021"
publish = false

[dependencies]
dsmr5 = "*"
env_logger = "*"
event-listener = "5"
hyper = { version = "0.14", features = ["server", "http1", "tcp"] }
log = "0.4"
serde = { version = "1", features = ["derive"] }
serde_json = "1"
serial = "0.4"
tokio = { version = "1", features = ["macros", "rt-multi-thread"] }
url = "2"
