[package]
name = "instanced_quads"
version = "0.1.0"
edition = "2021"
publish = false

[dependencies]
zerocopy = "0.2"
wgpu = "0.4"
sdl2 = { version = "0.34", features = ["raw-window-handle"] }
