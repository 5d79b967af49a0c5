[package]
name = "nazarust"
version = "0.1.0"
edition = "2021"
publish = false

[dependencies]
rodio = { version = "0.10", default-features = false }
winit = "0.20"
