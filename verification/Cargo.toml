[package]
name = "plugin_agent"
version = "0.1.0"
edition = "2021"
publish = false

[dependencies]
chrono = "*"
serde_json = "*"
curl = "*"
log4rs = "*"
serde_yaml = "*"
serde = { version = "*", features = ["derive"] }
log = "*"
