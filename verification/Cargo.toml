[package]
name = "injector"
version = "0.1.0"
edition = "2021"
publish = false

[dependencies]
clap = { version = "=4.6.7", features = ["derive"] }
dunce = "=1.0.5"
env_logger = "=0.11.11"
log = "=0.4.34"
tabled = "=0.22.0"
windows = { version = "=0.61.3", features = ["Win32_Foundation", "Win32_System_Diagnostics_Debug", "Win32_System_LibraryLoader", "Win32_System_Memory", "Win32_System_ProcessStatus", "Win32_System_Threading"] }
windows-strings = "*"
