[package]
name = "sciter"
version = "0.5.0"
edition = "2021"
publish = false

[dependencies]
libc = "0.2"
lazy_static = "1"
winapi = { version = "0.3", features = ["shellapi", "winuser", "windef", "minwindef"] }
objc = "0.2"
objc-foundation = "0.1"
