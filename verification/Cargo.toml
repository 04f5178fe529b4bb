[package]
name = "hac"
version = "0.1.0"
edition = "2021"
publish = false

[dependencies]
wgpu = "0.15"
bytemuck = "1"
pollster = "0.3"
