[package]
name = "korangar"
version = "0.1.0"
edition = "2021"
publish = false

[dependencies]
wgpu = "22"
bytemuck = { version = "1", features = ["derive"] }
cgmath = "0.18"
