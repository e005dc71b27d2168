[package]
name = "frameloop"
version = "0.1.0"
edition = "2021"
publish = false

[dependencies]
anyhow = "1"
cgmath = "0.18"
nalgebra-glm = "0.18"
png = "0.17"
pretty_env_logger = "0.5"
thiserror = "1"
vulkanalia = { version = "0.23", features = ["libloading", "window"] }
winit = "0.29"
