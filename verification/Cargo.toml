[package]
name = "tetris"
version = "0.1.0"
edition = "2021"
publish = false

[dependencies]
bevy = { version = "=0.17.3", default-features = false, features = ["std", "bevy_color", "bevy_window", "bevy_sprite", "bevy_text", "bevy_ui"] }
rand = "=0.9.5"
