[package]
name = "tower_climber"
version = "0.1.0"
edition = "2021"
publish = false

[dependencies]
gl = "0.14"
glium = "0.25"
imgui = "0.2"
imgui-glium-renderer = "0.2"
imgui-winit-support = "0.2"
nalgebra-glm = "0.4"
