[package]
name = "boko_timer"
version = "0.1.0"
edition = "2021"
publish = false

[dependencies]
livesplit-core = { version = "=0.12.0", default-features = false, features = ["std"] }
eframe = { version = "=0.19.0", default-features = false, features = ["default_fonts", "glow"] }
rfd = { version = "=0.12.1", default-features = false, features = ["xdg-portal"] }
