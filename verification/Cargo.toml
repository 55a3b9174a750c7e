[package]
name = "dx12_hal"
version = "0.1.0"
edition = "2021"
publish = false

[dependencies]
arrayvec = "=0.7.8"
log = "=0.4.34"
parking_lot = "=0.12.5"
windows = { version = "=0.60.0", features = [
    "Win32_Foundation",
    "Win32_Graphics_Direct3D",
    "Win32_Graphics_Direct3D12",
    "Win32_Graphics_Dxgi",
    "Win32_Graphics_Dxgi_Common",
    "Win32_System_Threading",
    "Win32_UI_WindowsAndMessaging",
] }
