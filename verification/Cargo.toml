[package]
name = "textured_quad"
version = "0.1.0"
edition = "2021"
publish = false

[dependencies]
array-init = "2"
cgmath = "0.18"
image = { version = "0.24", default-features = false, features = ["png"] }
raw-window-handle = "0.5"
windows = { version = "0.48", features = ["Win32_Foundation", "Win32_Graphics_Direct3D", "Win32_Graphics_Direct3D_Fxc", "Win32_Graphics_Direct3D12", "Win32_Graphics_Dxgi", "Win32_Graphics_Dxgi_Common", "Win32_Security", "Win32_System_Threading", "Win32_System_WindowsProgramming", "Win32_UI_WindowsAndMessaging"] }
winit = "0.28"
