[package]
name = "iron_shell"
version = "0.1.0"
edition = "2021"
publish = false

[dependencies]
eframe = { version = "*", default-features = false, features = ["glow", "default_fonts", "x11"] }
sysinfo = "*"
raw-window-handle = "*"
window-vibrancy = "*"
windows = { version = "*", features = ["Win32_Foundation", "Win32_UI_WindowsAndMessaging"] }
