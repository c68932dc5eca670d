[package]
name = "shop_menu"
version = "0.1.0"
edition = "2021"
publish = false

[dependencies]
bevy = { version = "0.14", default-features = false, features = ["bevy_state"] }
env_logger = "0.11"
log = "0.4"
