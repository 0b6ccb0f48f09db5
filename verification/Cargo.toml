[package]
name = "imagine"
version = "0.1.0"
edition = "2021"
publish = false

[dependencies]
bytemuck = { version = "1", features = ["derive"] }
delaunator = "1"
ffmpeg-sys-next = "6.0"
futures = "0.3"
futures-intrusive = "0.5"
image = "0.24"
nalgebra = "0.32"
shaderc = "0.8"
svgtypes = "0.11"
tobj = "4.0"
ttf-parser = "0.20"
wgpu = "0.16"
