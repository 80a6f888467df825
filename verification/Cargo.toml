[package]
name = "clarke_park"
version = "0.1.0"
edition = "2021"
publish = false

[dependencies]
eframe = { version = "=0.29.1", default-features = false, features = ["default_fonts", "glow", "x11"] }
egui = { version = "=0.29.1", default-features = false }
egui_plot = { version = "=0.29.0", default-features = false }
