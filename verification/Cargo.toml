[package]
name = "bully_chaos"
version = "0.1.0"
edition = "2021"
publish = false

[dependencies]
rand = "0.9"
log = "0.4"
env_logger = "0.11"
serde = { version = "1", features = ["derive"] }
toml = "0.8"
tokio = { version = "1", features = ["full"] }
twitch-irc = { version = "5", default-features = false, features = ["transport-tcp", "transport-tcp-rustls-webpki-roots"] }
windows = { version = "0.58", features = ["Win32_Foundation", "Win32_System_Diagnostics_Debug", "Win32_System_Diagnostics_ToolHelp", "Win32_System_Threading", "Win32_System_Memory", "Win32_System_SystemServices", "Win32_System_LibraryLoader", "Win32_UI_Input_KeyboardAndMouse", "Win32_UI_WindowsAndMessaging"] }
