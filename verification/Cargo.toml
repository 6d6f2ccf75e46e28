[package]
name = "gfx_device"
version = "0.1.0"
edition = "2021"
publish = false

[dependencies]
bytemuck = "1"
glam = "0.20"
rand = "0.8"
raw-gl-context = "0.1"
winit = "0.25"
