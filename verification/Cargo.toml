[package]
name = "retro_pet"
version = "0.1.0"
edition = "2021"
publish = false

[dependencies]
rand = "0.9"
serde = { version = "1", features = ["derive"] }
serde_json = "1"
directories = "6"
eframe = { version = "0.37", default-features = false, features = ["default_fonts", "glow", "x11"] }
