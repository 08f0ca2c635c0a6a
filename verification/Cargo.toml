[package]
name = "reactor"
version = "0.1.0"
edition = "2021"
publish = false

[dependencies]
bevy = { version = "0.8", default-features = false, features = ["bevy_asset", "bevy_gltf", "bevy_winit", "render", "png", "x11"] }
bevy-inspector-egui = { version = "0.12", default-features = false }
bevy_asset_loader = "0.12"
bevy_kira_audio = "0.12"
bevy_mod_outline = "0.2"
bevy_tweening = "0.5"
iyes_loopless = "0.7"
rand = "0.8"
