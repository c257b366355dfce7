[package]
name = "primrose_rust"
version = "0.1.0"
edition = "2021"
publish = false

[dependencies]
glam = "*"
ozz-animation-rs = "=0.9.2"
ravif = { version = "=0.13.0", default-features = false }
rgb = "=0.8.53"
