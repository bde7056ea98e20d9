[package]
name = "com_calculator"
version = "0.1.0"
edition = "2021"
publish = false

[dependencies]
windows = { version = "=0.59.0", features = ["Win32_Foundation", "Win32_System_Com", "Win32_System_Registry", "Win32_System_LibraryLoader"] }
windows-core = "=0.59.0"
