[package]
name = "space_game_core"
version = "0.1.0"
edition = "2021"
publish = false

[dependencies]
glam = "0.24"
rapier3d = "0.17"
serde = { version = "1", features = ["derive"] }
serde_json = "1"
