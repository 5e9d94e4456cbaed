[package]
name = "window_reveal"
version = "0.1.0"
edition = "2021"
publish = false

[dependencies]
bevy = { version = "=0.19.1", default-features = false, features = ["std", "bevy_window", "bevy_color", "bevy_camera"] }
