[package]
name = "shader_reload"
version = "0.1.0"
edition = "2021"
publish = false

[dependencies]
naga = { version = "=30.0.1", features = ["wgsl-in", "glsl-in"] }
wgpu = { version = "=30.0.1", features = ["naga-ir"] }
winit = "=0.30.13"
encase = { version = "=0.11.2", features = ["mint"] }
mint = "=0.5.9"
pico-args = "=0.5.0"
pollster = "=1.0.1"
