[package]
name = "lingsubtitle"
version = "0.1.0"
edition = "2021"
publish = false

[dependencies]
serde = { version = "=1.0.229", features = ["derive"] }
serde_json = "=1.0.154"
chrono = "=0.4.45"
uuid = { version = "=1.29.0", features = ["v4"] }
dirs = "=5.0.1"
tokio = { version = "=1.54.1", features = ["sync", "time", "macros", "rt"] }
tokio-tungstenite = "=0.24.0"
futures-util = "=0.3.34"
base64 = "=0.22.1"
image = { version = "=0.25.10", default-features = false, features = ["png"] }
cpal = "=0.15.3"
reqwest = { version = "0.12", default-features = false, features = ["json", "stream"] }
windows = { version = "=0.58.0", features = ["Win32_Foundation", "Win32_Graphics_Gdi", "Win32_Media_Audio", "Win32_Media_KernelStreaming", "Win32_Media_Multimedia", "Win32_System_Com", "Win32_System_Com_StructuredStorage", "Win32_System_ProcessStatus", "Win32_System_Threading", "Win32_UI_Shell", "Win32_UI_WindowsAndMessaging", "Win32_Storage_FileSystem", "Win32_System_Variant"] }
