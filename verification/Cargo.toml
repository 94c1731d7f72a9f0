[package]
name = "infection_sim"
version = "0.1.0"
edition = "2021"
publish = false

[dependencies]
rand = "=0.8.8"
env_logger = "=0.10.2"
bevy = { version = "0.12", default-features = false }
