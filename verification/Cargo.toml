[package]
name = "bot_core"
version = "0.1.0"
edition = "2021"
publish = false

[dependencies]
env_logger = "0.7"
kankyo = "0.3"
log = "0.4"
serenity = "0.8"
