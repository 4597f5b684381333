[package]
name = "boids"
version = "0.1.0"
edition = "2021"
publish = false

[dependencies]
glium = "0.25"
hotwatch = "0.4"
nalgebra-glm = "*"
rand = "0.7"
serde = { version = "1", features = ["derive"] }
toml = "0.5"
