[package]
name = "transparent_text"
version = "0.1.0"
edition = "2021"
publish = false

[dependencies]
fontdue = "*"
vulkano = "0.34"
vulkano-shaders = "0.34"
winit = "0.28"
