[package]
name = "hippowm"
version = "0.1.0"
edition = "2021"
publish = false

[dependencies]
confy = "*"
env_logger = "*"
libc = "*"
log = "*"
serde = { version = "*", features = ["derive"] }
x11 = "*"
