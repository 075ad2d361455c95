[package]
name = "raytracer"
version = "0.1.0"
edition = "2021"
publish = false

[dependencies]
cgmath = "=0.17.0"
device_query = "=1.1.3"
vulkano = "=0.34.2"
vulkano-shaders = "=0.34.0"
vulkano-win = "=0.34.0"
winit = "=0.28.7"
