[package]
name = "film_emulator"
version = "0.1.0"
edition = "2021"
publish = false

[dependencies]
image = { version = "=0.25.10", default-features = false, features = ["png", "jpeg", "bmp", "gif", "tiff"] }
bytemuck = { version = "=1.25.2", features = ["derive"] }
eframe = { version = "=0.33.3", default-features = false, features = ["wgpu", "default_fonts", "x11", "wayland"] }
egui = "=0.33.3"
egui-file-dialog = "=0.12.0"
pollster = "=0.4.0"
