[package]
name = "sky_sheet_player"
version = "0.1.0"
edition = "2021"
publish = false

[dependencies]
dirs = "6"
eframe = { version = "0.31", default-features = false, features = ["glow", "default_fonts", "x11"] }
egui = { version = "0.31", default-features = false }
enigo = { version = "0.3", default-features = false, features = ["x11rb"] }
rand = "0.9"
rdev = "0.5"
rfd = { version = "0.15", default-features = false, features = ["xdg-portal", "tokio"] }
serde = { version = "1", features = ["derive"] }
serde_json = "1"
