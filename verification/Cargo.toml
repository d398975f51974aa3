[package]
name = "vk_engine"
version = "0.1.0"
edition = "2021"
publish = false

[dependencies]
ash = "=0.38.0"
bevy = { version = "=0.16.1", default-features = false, features = ["std"] }
vulkano = "=0.35.2"
vulkano-shaders = "=0.35.0"
winit = "=0.30.13"
