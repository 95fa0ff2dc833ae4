[package]
name = "rpp"
version = "0.1.0"
edition = "2021"
publish = false

[dependencies]
bit_field = "0.10"
memmap2 = "0.9"
windows = { version = "0.52", features = ["Win32_Foundation", "Win32_System_Diagnostics_Debug", "Win32_System_SystemServices", "Win32_System_SystemInformation", "Win32_System_WindowsProgramming"] }
