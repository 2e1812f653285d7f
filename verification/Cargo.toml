[package]
name = "mdnotes"
version = "0.1.0"
edition = "2021"
publish = false

[dependencies]
eframe = { version = "=0.24.1", default-features = false, features = ["default_fonts", "glow", "x11"] }
egui_extras = { version = "=0.24.2", default-features = false }
rfd = { version = "=0.14.1", default-features = false, features = ["xdg-portal", "tokio"] }
directories = "=5.0.1"
