[package]
name = "g2d"
version = "0.1.0"
edition = "2021"
publish = false

[dependencies]
wgpu = "0.17.2"
bytemuck = { version = "1", features = ["derive"] }
futures-intrusive = "0.5"
raw-window-handle = "0.5"
