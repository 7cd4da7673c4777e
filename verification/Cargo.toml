[package]
name = "neumusic"
version = "1.0.1"
edition = "2021"
publish = false

[dependencies]
anyhow = "1"
eframe = { version = "0.35", default-features = false, features = ["default_fonts", "glow", "wayland", "x11"] }
egui = "0.35"
image = { version = "0.25", default-features = false, features = ["png"] }
rfd = "0.15"
rust-embed = "8"
ureq = "2"
