[package]
name = "squirrel"
version = "0.1.0"
edition = "2021"
publish = false

[dependencies]
slotmap = "1"
glam = { version = "0.25", features = ["bytemuck"] }
bytemuck = { version = "1", features = ["derive"] }
wgpu = { version = "0.19", default-features = false, features = ["wgsl"] }
image = { version = "0.24", default-features = false, features = ["png", "jpeg", "dds"] }
tobj = { version = "4", features = ["async"] }
anyhow = "1"
thiserror = "1"
pollster = "0.3"
tracing = "0.1"
