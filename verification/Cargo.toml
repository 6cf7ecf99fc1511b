[package]
name = "directories"
version = "0.1.0"
edition = "2021"
publish = false

[dependencies]
anyhow = "=1.0.104"
winapi = { version = "=0.3.9", features = ["combaseapi", "knownfolders", "shlobj", "shtypes", "winbase", "winerror", "winnt"] }
