[package]
name = "gpu-video"
version = "0.1.0"
edition = "2021"
publish = false

[dependencies]
ash = "*"
rustc-hash = "*"
drm-fourcc = "*"
h264-reader = "*"
libc = "*"
thiserror = "*"
tracing = "*"
pollster = "*"
bytemuck = { version = "*", features = ["derive"] }
wgpu = "*"
block2 = "*"
objc2 = "*"
objc2-core-foundation = "*"
objc2-core-media = "*"
objc2-core-video = "*"
objc2-metal = "*"
objc2-metal-performance-shaders = "*"
objc2-video-toolbox = "*"
