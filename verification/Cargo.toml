[package]
name = "app_installer"
version = "0.1.0"
edition = "2021"
publish = false

[dependencies]
flate2 = "1"
chrono = "0.4"
sysinfo = "0.29"
mslnk = "0.1"
parselnk = "0.1"
winapi = { version = "0.3", features = ["shlobj", "knownfolders", "winerror", "winnt", "combaseapi"] }
native-windows-gui = "1"
