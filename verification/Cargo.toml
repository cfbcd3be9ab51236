[package]
name = "recorder"
version = "0.1.0"
edition = "2021"
publish = false

[dependencies]
lodepng = "*"
wgpu = "*"
pollster = "*"
futures-intrusive = "*"
