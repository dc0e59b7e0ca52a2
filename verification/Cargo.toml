[package]
name = "tiled_map_loader"
version = "0.1.0"
edition = "2021"
publish = false

[dependencies]
anyhow = "1"
bevy = { version = "0.10", default-features = false, features = ["bevy_asset"] }
tiled = { version = "*", default-features = false }
