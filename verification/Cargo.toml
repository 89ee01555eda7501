[package]
name = "blackhole"
version = "0.1.0"
edition = "2021"
publish = false

[dependencies]
bevy = { version = "=0.19.1", default-features = false, features = ["std", "multi_threaded", "bevy_asset", "bevy_log", "bevy_state", "bevy_window", "bevy_render", "bevy_core_pipeline", "bevy_ui", "bevy_ui_render", "bevy_light", "png", "keyboard"] }
