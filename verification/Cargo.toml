[package]
name = "solar_sim"
version = "0.1.0"
edition = "2021"
publish = false

[dependencies]
async-trait = "=0.1.64"
bevy = { version = "=0.6.1", default-features = false, features = ["bevy_winit", "render", "x11"] }
bevy_prototype_lyon = "=0.4.0"
