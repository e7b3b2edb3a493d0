[package]
name = "paper"
version = "0.1.0"
edition = "2021"
publish = false

[dependencies]
anyhow = "=1.0.104"
bytemuck = "=1.25.2"
futures = "=0.3.34"
glam = "=0.34.1"
log = "=0.4.34"
simple_logger = "=5.2.0"
wgpu = "=25.0.2"
winit = "=0.30.13"
