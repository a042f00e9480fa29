[package]
name = "mio-serial"
version = "5.0.0"
edition = "2021"
publish = false

[dependencies]
mio = { version = "~0.7", features = ["os-poll", "os-util"] }
nix = "~0.20"
serialport = { version = "~4.0", default-features = false }
winapi = { version = "0.3", features = ["commapi", "fileapi", "handleapi", "winbase", "winnt"] }
