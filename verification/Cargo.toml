[package]
name = "mathkids"
version = "0.1.0"
edition = "2021"
publish = false

[dependencies]
rand = "=0.8.8"
eframe = { version = "=0.10.0", features = ["persistence"] }
egui = "=0.10.0"
epi = { version = "=0.10.0", features = ["persistence"] }
serde = { version = "=1.0.229", features = ["derive"] }
