[package]
name = "needle"
version = "1.0.0"
edition = "2021"
publish = false

[dependencies]
chrono = "*"
wgpu = "*"
winit = "*"
glyphon = "*"
bytemuck = { version = "*", features = ["derive"] }
serde = { version = "*", features = ["derive"] }
toml = "*"
directories = "*"
regex = "*"
font-loader = "*"
dialog = "*"
thiserror = "*"
