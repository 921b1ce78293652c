[package]
name = "mqtt_light_switch"
version = "0.1.0"
edition = "2021"
publish = false

[dependencies]
rumqttc = "*"
signal-hook = "*"
yaml-rust = "*"
clap = { version = "*", features = ["derive"] }
stderrlog = "*"
log = "*"
