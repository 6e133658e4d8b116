[package]
name = "bl_wgpu_util"
version = "0.1.0"
edition = "2021"
publish = false

[dependencies]
wgpu = "=30.0.1"
glam = { version = "=0.30.10", features = ["bytemuck"] }
encase = { version = "=0.11.2", features = ["glam"] }
bytemuck = { version = "=1.25.2", features = ["derive"] }
half = { version = "=2.7.1", features = ["bytemuck"] }
anyhow = "=1.0.104"
image = { version = "=0.25.10", default-features = false, features = ["bmp", "dds", "exr", "ff", "gif", "hdr", "ico", "jpeg", "png", "pnm", "qoi", "tga", "tiff", "webp"] }
