[package]
name = "presence_core"
version = "0.1.0"
edition = "2021"
publish = false

[dependencies]
regex = "1"
discord-rich-presence = "*"
serde = { version = "1", features = ["derive"] }
serde_json = "1"
once_cell = "1"
windows = { version = "*", features = ["Win32_Foundation", "Win32_System_ProcessStatus", "Win32_System_Threading", "Win32_UI_WindowsAndMessaging"] }
