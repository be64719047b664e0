[package]
name = "nuage"
version = "0.1.0"
edition = "2021"
publish = false

[dependencies]
anyhow = "1"
bytemuck = { version = "1", features = ["derive"] }
flume = "0.11"
gif = "0.13"
pollster = "0.3"
wgpu = "0.19"
