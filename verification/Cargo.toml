[package]
name = "blade_controlhub"
version = "0.1.0"
edition = "2021"
publish = false

[dependencies]
serde = { version = "=1.0.229", features = ["derive"] }
serde_json = "=1.0.154"
rdev = "=0.5.3"
sysinfo = "=0.30.13"
winreg = "=0.56.0"
tracing = "=0.1.44"
hidapi = "=2.6.7"
futures = "=0.3.31"
pollster = "=0.3.0"
windows = { version = "=0.62.2", features = ["Win32_Foundation", "Win32_Graphics_Gdi", "Win32_UI_WindowsAndMessaging", "Win32_System_Threading", "Win32_Media_Audio", "Win32_Media_Audio_Endpoints", "Win32_System_Com"] }
