[package]
name = "keyboard_bridge"
version = "0.1.0"
edition = "2021"
publish = false

[dependencies]
anyhow = "*"
chrono = "*"
env_logger = "*"
evdev = { version = "*", features = ["tokio"] }
log = "*"
tokio = { version = "*", features = ["macros", "rt-multi-thread"] }
