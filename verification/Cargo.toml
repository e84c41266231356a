[package]
name = "keypointer"
version = "0.1.0"
edition = "2021"
publish = false

[dependencies]
input = "*"
libc = "*"
wayland-client = "*"
wayland-protocols-wlr = { version = "*", features = ["client"] }
