[package]
name = "surreal"
version = "0.1.0"
edition = "2021"
publish = false

[dependencies]
wgpu = "0.6"
wgpu_glyph = "0.10"
glyph_brush = "0.7"
winit = "0.23"
cgmath = "0.17"
bytemuck = "1"
futures = "0.3"
image = "0.23"
glsl-to-spirv = "0.1"
