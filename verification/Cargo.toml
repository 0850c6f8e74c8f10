[package]
name = "gameboy_emulator"
version = "0.1.0"
edition = "2021"
publish = false

[dependencies]
clap = { version = "4", features = ["derive"] }
egui_extras = { version = "0.31", default-features = false }
native-dialog = "0.7"
preferences = "*"
serde = { version = "1", features = ["derive"] }
