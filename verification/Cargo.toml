[package]
name = "banshee_render"
version = "0.1.0"
edition = "2021"
publish = false

[dependencies]
image = "*"
wgpu = "22"
cgmath = "*"
tobj = "*"
pollster = "*"
bytemuck = { version = "*", features = ["derive"] }
futures-intrusive = "*"
anyhow = "*"
