[package]
name = "laufey_input"
version = "0.1.0"
edition = "2021"
publish = false

[dependencies]
winit = "0.30"
raw-window-handle = "0.6"
wayland-client = { version = "0.31", features = ["system"] }
windows-sys = { version = "0.59", features = ["Win32_Foundation", "Win32_UI_WindowsAndMessaging"] }
core-graphics = "0.24"
