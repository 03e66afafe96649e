[package]
name = "prime_spiral"
version = "0.1.0"
edition = "2021"
publish = false

[dependencies]
bevy = { version = "0.8", default-features = false, features = ["bevy_winit", "x11", "bevy_render", "bevy_core_pipeline", "bevy_sprite"] }
