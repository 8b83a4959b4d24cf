[package]
name = "buffer_mapping"
version = "0.1.0"
edition = "2021"
publish = false

[dependencies]
wgpu-types = { version = "25", features = ["serde"] }
wgpu-core = { version = "25", default-features = false, features = ["serde"] }
ipc-channel = "0.20"
serde = { version = "1", features = ["derive"] }
