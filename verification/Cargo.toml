[package]
name = "jam_orbit"
version = "0.1.0"
edition = "2021"
publish = false

[dependencies]
hex = "0.4"
serde = { version = "1", features = ["derive"] }
serde_json = "1"
tracing = "0.1"
tracing-subscriber = { version = "0.3", features = ["env-filter"] }
parking_lot = "0.12"
tokio = { version = "1", features = ["rt-multi-thread", "macros"] }
tokio-tungstenite = "*"
futures-util = "0.3"
bytemuck = { version = "1", features = ["derive"] }
egui = "0.31"
eframe = { version = "0.31", default-features = false, features = ["wgpu", "default_fonts", "x11"] }
egui-wgpu = "0.31"
egui_plot = "0.31"
