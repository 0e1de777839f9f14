[package]
name = "jam_core"
version = "0.1.0"
edition = "2021"
publish = false

[dependencies]
bevy = { version = "=0.10.1", default-features = false, features = ["bevy_asset", "bevy_core_pipeline", "bevy_gltf", "bevy_pbr", "bevy_render", "bevy_scene", "bevy_text", "bevy_ui", "bevy_winit", "filesystem_watcher", "png", "x11"] }
bevy_hanabi = "=0.6.2"
bevy_mod_raycast = "=0.8.0"
bevy_rapier3d = "=0.21.0"
encase = "=0.5.0"
