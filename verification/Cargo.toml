[package]
name = "roomba_port"
version = "0.1.0"
edition = "2021"
publish = false

[dependencies]
serial = "0.4"
time = "0.1"
log = "0.4"
env_logger = "*"
cupi = "*"
