[package]
name = "azookey"
version = "0.1.0"
edition = "2021"
publish = false

[dependencies]
anyhow = "=1.0.104"
chrono = "=0.4.45"
hyper-util = { version = "=0.1.21", features = ["tokio"] }
prost = "=0.13.5"
serde_json = "=1.0.154"
tao = "=0.31.1"
tokio = { version = "=1.54.1", features = ["rt-multi-thread", "macros", "sync", "net", "time", "io-util"] }
tonic = "=0.12.3"
tower = { version = "=0.4.13", features = ["util"] }
tracing = "=0.1.44"
wry = "=0.48.1"

[dependencies.windows]
version = "=0.58.0"
features = ["implement", "Win32_Foundation", "Win32_Graphics_Gdi", "Win32_System_Com", "Win32_System_Ole", "Win32_System_Threading", "Win32_System_Variant", "Win32_UI_Input_KeyboardAndMouse", "Win32_UI_TextServices", "Win32_UI_WindowsAndMessaging"]
