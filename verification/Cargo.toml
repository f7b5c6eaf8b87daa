[package]
name = "triangle_pan"
version = "0.1.0"
edition = "2021"
publish = false

[dependencies]
eframe = { version = "*", default-features = false, features = ["wgpu", "x11"] }
egui = "*"
objc2 = "*"
objc2-foundation = "*"
objc2-metal = "*"
