[package]
name = "rusty_gui"
version = "0.1.0"
edition = "2021"
publish = false

[dependencies]
bytemuck = { version = "1", features = ["derive"] }
cgmath = "0.18"
futures = "0.3"
image = { version = "0.23", default-features = false, features = ["png", "jpeg"] }
wgpu = "0.7"
wgpu_glyph = "0.11"
winit = "0.24"
