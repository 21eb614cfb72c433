[package]
name = "uart_capture"
version = "0.1.0"
edition = "2021"
publish = false

[dependencies]
eframe = { version = "0.31", default-features = false, features = ["default_fonts", "glow", "x11"] }
rfd = "0.15"
serde = { version = "1", features = ["derive"] }
serialport = { version = "4", default-features = false }
toml = "0.8"
