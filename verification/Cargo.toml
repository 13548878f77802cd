[package]
name = "gaszaehler"
version = "0.2.0"
edition = "2021"
publish = false

[dependencies]
env_logger = "*"
log = "*"
rppal = "*"
rumqttc = { version = "*", default-features = false }
