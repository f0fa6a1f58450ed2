[package]
name = "bunny_manager"
version = "0.1.0"
edition = "2021"
publish = false

[dependencies]
egui = "*"
egui_extras = "*"
serde = { version = "*", features = ["derive"] }
toml = "*"
anyhow = "*"
tracing = "*"
tracing-subscriber = "*"
jiff = "*"
humantime = "*"
glam = "*"
windows = { version = "*", features = ["Win32_Foundation", "Win32_System_LibraryLoader", "Win32_System_SystemServices", "Win32_System_Threading", "Win32_Graphics_Direct3D9", "Win32_Graphics_Gdi", "Win32_UI_WindowsAndMessaging"] }
windows-numerics = "*"
ilhook = "*"
retour = { version = "*", features = ["static-detour"] }
abi_stable = "*"
rapidhash = "*"
mimalloc = "*"
