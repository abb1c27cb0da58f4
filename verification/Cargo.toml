[package]
name = "moon_lander"
version = "0.1.0"
edition = "2021"
publish = false

[dependencies]
bevy = { version = "=0.6.1", default-features = false, features = ["render", "bevy_winit", "x11", "png"] }
darling = "=0.13.4"
