[package]
name = "spin_sleep"
version = "1.3.0"
edition = "2021"
publish = false

[dependencies]
windows-sys = { version = "0.59", default-features = false, features = ["Win32_Foundation", "Win32_Media", "Win32_Security", "Win32_System_Threading"] }
