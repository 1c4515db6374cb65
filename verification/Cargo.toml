[package]
name = "ap_client"
version = "0.1.0"
edition = "2021"
publish = false

[dependencies]
indexmap = "=2.14.2"
archipelago_rs = { version = "=1.0.0", default-features = false }
anyhow = "=1.0.104"
log = "=0.4.35"
tungstenite = { version = "=0.28.0", default-features = false }
simplelog = "=0.12.2"
chrono = "=0.4.45"
backtrace = "=0.3.77"
serde = { version = "=1.0.229", features = ["derive"] }
darksouls3 = "=0.14.0"
sekiro = "=0.14.0"
fromsoftware-shared = "=0.14.0"
imgui = { version = "=0.12.0", features = ["docking"] }
imgui-sys = "=0.12.0"
windows = { version = "=0.61.3", features = ["Win32_Foundation", "Win32_UI_WindowsAndMessaging", "Win32_System_SystemServices"] }

[dev-dependencies]
regex = "=1.13.1"
