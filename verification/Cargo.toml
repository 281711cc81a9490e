[package]
name = "cargo_credential"
version = "0.1.0"
edition = "2021"
publish = false

[dependencies]
rustix = { version = "*", features = ["fs", "stdio"] }
windows-sys = { version = "*", features = ["Win32_Foundation", "Win32_Security_Credentials", "Win32_System_Console"] }
