[package]
name = "render_core"
version = "0.1.0"
edition = "2021"
publish = false

[dependencies]
anyhow = "=1.0.104"
nalgebra-glm = "=0.18.0"
tobj = "=3.2.5"
vulkanalia = { version = "=0.22.0", features = ["libloading", "provisional", "window"] }
winit = "=0.28.7"
