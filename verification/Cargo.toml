[package]
name = "atlas_core"
version = "0.1.0"
edition = "2021"
publish = false

[dependencies]
png = "=0.17.16"
bytemuck = { version = "=1.25.2", features = ["derive"] }
cgmath = "=0.18.0"
vulkano = "=0.29.0"
vulkano-shaders = "=0.29.0"
vulkano-win = "=0.29.0"
winit = "=0.26.1"
winit_input_helper = "=0.12.0"
egui = "=0.18.1"
egui-winit = "0.18"
egui_vulkano = "=0.8.0"
russimp = "=1.0.6"
