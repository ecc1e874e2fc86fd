[package]
name = "candela"
version = "0.1.0"
edition = "2021"
publish = false

[dependencies]
ddc = "0.2"
ddc-winapi = "0.2"
windows = { version = "0.48", features = ["Win32_Foundation", "Win32_Graphics_Gdi", "Win32_UI_ColorSystem", "Win32_UI_WindowsAndMessaging", "Win32_UI_Shell", "Win32_System_LibraryLoader"] }
