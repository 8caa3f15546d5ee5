[package]
name = "egui_double_slider"
version = "0.1.0"
edition = "2021"
publish = false

[dependencies]
egui = { version = "0.31", default-features = false }
serde = { version = "1", features = ["derive"] }
