[package]
name = "seaplane"
version = "0.1.0"
edition = "2021"
publish = false

[dependencies]
bevy = { version = "0.15", default-features = false, features = ["bevy_asset", "bevy_color", "bevy_core_pipeline", "bevy_pbr", "bevy_render", "bevy_text", "bevy_ui", "bevy_window"] }
avian3d = { version = "0.2", default-features = false, features = ["3d", "f32", "parry-f32"] }
rand = "0.8"
