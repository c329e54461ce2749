[package]
name = "rockford"
version = "0.1.0"
edition = "2021"
publish = false

[dependencies]
bevy = { version = "0.10", default-features = false, features = ["bevy_render", "bevy_sprite", "bevy_core_pipeline", "bevy_asset"] }
bevy_ecs_tilemap = { version = "0.10", default-features = false }
rand = "0.8"
dyn-clone = "1"
