[package]
name = "nonstd"
version = "0.1.0"
edition = "2021"
publish = false

[dependencies]
mime_guess = "=2.0.5"
serde_json = "=1.0.154"
url = "=2.5.8"
image = { version = "=0.25.10", default-features = false, features = ["jpeg"] }
serde = { version = "=1.0.229", features = ["derive"] }
once_cell = "=1.21.4"
gtk = "=0.18.2"
smol = "=2.0.2"
async-std = "=1.13.2"
rfd = "=0.14.1"
rusb = "=0.9.4"
zbus = "=4.4.0"
shared_child = "=1.1.2"
ffmpeg-next = "=7.1.0"
windows = { version = "*", features = ["Win32_Foundation", "Win32_Storage_FileSystem", "Win32_System_Com", "Win32_System_Com_StructuredStorage", "Win32_System_Variant", "Win32_UI_Shell", "Win32_UI_Shell_Common", "Win32_UI_Shell_PropertiesSystem", "Win32_System_Memory", "Win32_System_DataExchange", "Win32_System_Ole", "Win32_System_SystemServices", "Win32_Globalization", "Win32_Graphics_Gdi", "Win32_Graphics_Imaging", "Win32_UI_WindowsAndMessaging", "Win32_Devices_DeviceAndDriverInstallation", "Win32_System_Threading", "Win32_System_WindowsProgramming", "Management_Deployment"] }
windows-core = "*"
webview2-com = "*"
