[package]
name = "xr_frame_core"
version = "0.1.0"
edition = "2021"
publish = false

[dependencies]
openxr = { version = "*", default-features = false }
wgpu = { version = "0.17", default-features = false }
