[package]
name = "htrime"
version = "0.1.0"
edition = "2021"
publish = false

[dependencies]
wayland-client = "*"
wayland-protocols = { version = "*", features = ["client"] }
wayland-protocols-misc = { version = "*", features = ["client"] }
xkbcommon = "*"
cairo-rs = { version = "*", default-features = false }
libc = "*"
log = "*"
env_logger = "*"
