[package]
name = "coastal_engineering_platform"
version = "0.1.0"
edition = "2021"
publish = false

[dependencies]
eframe = { version = "0.31", default-features = false, features = ["default_fonts", "glow", "x11"] }
egui = "0.31"
egui_plot = "0.31"
resvg = "0.37"
usvg = "0.37"
tiny-skia = "0.11"
serde = { version = "1", features = ["derive"] }
serde_json = "1"
