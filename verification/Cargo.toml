[package]
name = "hideme"
version = "0.1.0"
edition = "2021"
publish = false

[dependencies]
bytemuck = { version = "=1.25.2", features = ["derive"] }
clappers = "=2.0.3"
image = { version = "=0.24.9", default-features = false, features = ["png", "jpeg"] }
itertools = "=0.10.5"
log = "=0.4.34"
pollster = "=0.2.5"
simple_logger = "=5.2.0"
wallpaper = "=3.2.0"
wgpu = "=0.12.0"
winit = "=0.26.1"
