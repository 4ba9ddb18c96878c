[package]
name = "opentfa"
version = "0.1.0"
edition = "2021"
publish = false

[dependencies]
bevy = { version = "=0.17.3", default-features = false, features = ["std", "bevy_state", "bevy_asset", "bevy_sprite", "bevy_ui", "bevy_text", "bevy_window"] }
