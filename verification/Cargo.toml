[package]
name = "solar_control"
version = "0.1.0"
edition = "2021"
publish = false

[dependencies]
chrono = { version = "0.4", default-features = false, features = ["clock", "serde"] }
serde = { version = "1", features = ["derive"] }
serde_json = "1"
log = "0.4"
env_logger = "0.11"
rumqttc = { version = "*", default-features = false }
tokio = { version = "1", features = ["rt-multi-thread", "macros", "time", "net"] }
tokio-modbus = { version = "*", default-features = false, features = ["tcp"] }
reqwest = { version = "0.12", default-features = false, features = ["json"] }
thiserror = "2"
