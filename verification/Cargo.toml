[package]
name = "getkey"
version = "0.1.0"
edition = "2021"
publish = false

[dependencies]
termion = "1.5"
windows = { version = "0.48", features = ["Win32_Foundation", "Win32_System_Console"] }
