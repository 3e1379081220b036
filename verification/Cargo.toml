[package]
name = "axion-core"
version = "0.1.0"
edition = "2021"
publish = false

[dependencies]
rust-embed = "8"
serde = { version = "1", features = ["derive"] }
serde_json = "1"
thiserror = "1"
tokio = { version = "1", features = ["full"] }
ts-rs = "8"
webview2-com = "0.28"
windows = { version = "0.52", features = ["Win32_Foundation", "Win32_System_Com", "Win32_System_Com_StructuredStorage", "Win32_System_Memory", "Win32_System_SystemInformation", "Win32_System_WinRT", "Win32_UI_Shell", "Win32_UI_Shell_Common", "Win32_UI_WindowsAndMessaging"] }
