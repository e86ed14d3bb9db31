[package]
name = "overlay_capture"
version = "0.1.0"
edition = "2021"
publish = false

[dependencies]
anyhow = "=1.0.104"
base64 = "=0.22.1"
image = { version = "=0.25.10", default-features = false, features = ["webp"] }
rayon = "=1.12.0"
rdev = "0.5.3"
serde = { version = "=1.0.229", features = ["derive"] }
serde_json = "=1.0.154"
windows = { version = "0.61.3", features = ["Win32_Graphics_Gdi", "Win32_UI_WindowsAndMessaging", "Globalization", "Graphics_Imaging", "Media_Ocr", "Storage_Streams"] }
