[package]
name = "tile_overlay"
version = "0.1.0"
edition = "2021"
publish = false

[dependencies]
rand = "=0.8.8"
bevy = { version = "0.8", default-features = false, features = ["render", "bevy_winit", "png", "x11"] }
bevy-inspector-egui = "0.12"
