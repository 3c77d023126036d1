[package]
name = "game_of_life_sim"
version = "0.1.0"
edition = "2021"
publish = false

[dependencies]
glass = "*"
glam = "*"
bytemuck = { version = "*", features = ["derive"] }
instant = "*"
log = "*"
env_logger = "*"
