[package]
name = "kerio_kvc_indicator"
version = "0.1.0"
edition = "2021"
publish = false

[dependencies]
env_logger = "=0.10.2"
image = { version = "=0.24.9", default-features = false, features = ["png"] }
systemctl = "=0.5.0"
tao = { version = "=0.16.11", features = ["tray"] }
