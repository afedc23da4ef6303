[package]
name = "dice_scene"
version = "0.1.0"
edition = "2021"
publish = false

[dependencies]
bevy = { version = "=0.7.0", default-features = false, features = ["render", "bevy_winit", "x11"] }
bevy_rapier3d = { version = "=0.14.1", default-features = false, features = ["dim3", "debug-render"] }
