[package]
name = "handmade_window"
version = "0.1.0"
edition = "2021"
publish = false

[dependencies]
log = "0.4"
pretty_env_logger = "0.4"
winapi = { version = "0.3", features = ["basetsd", "libloaderapi", "minwindef", "ntdef", "windef", "wingdi", "winuser"] }
