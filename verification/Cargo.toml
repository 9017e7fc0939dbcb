[package]
name = "sistema_solar"
version = "0.1.0"
edition = "2021"
publish = false

[dependencies]
bytemuck = { version = "=1.25.2", features = ["derive"] }
env_logger = { version = "=0.11.11", default-features = false }
nalgebra = "=0.32.6"
nalgebra-glm = "=0.18.0"
pollster = "=0.3.0"
