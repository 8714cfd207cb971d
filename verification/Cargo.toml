[package]
name = "game"
version = "0.1.0"
edition = "2021"
publish = false

[dependencies]
bevy_ecs = "0.15"
bit-set = "0.8"
gl = "0.14"
glfw = "*"
glm = "0.2"
image = { version = "0.25", default-features = false, features = ["bmp", "jpeg", "png", "tga"] }
rand = "0.8"
term = "*"
