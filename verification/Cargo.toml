[package]
name = "vk_engine"
version = "0.1.0"
edition = "2021"
publish = false

[dependencies]
ash = "0.24"
winit = "0.18"
cocoa = "*"
metal-rs = "*"
objc = "*"
winapi = { version = "0.3", features = ["windef", "winuser"] }
