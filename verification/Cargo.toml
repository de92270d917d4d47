[package]
name = "rise"
version = "0.1.0"
edition = "2021"
publish = false

[dependencies]
bytemuck = "=1.25.2"
cgmath = "=0.18.0"
futures = "=0.3.34"
image = "=0.25.10"
tobj = "=4.0.5"
wgpu = { version = "=30.0.1", features = ["spirv"] }
winit = "=0.30.13"
