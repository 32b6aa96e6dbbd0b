[package]
name = "imgui_styles"
version = "0.1.0"
edition = "2021"
publish = false

[dependencies]
imgui = { version = "*", features = ["docking"] }
