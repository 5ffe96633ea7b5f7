[package]
name = "sessiond"
version = "0.1.0"
edition = "2021"
publish = false

[dependencies]
libc = "=0.2.191"
nix = { version = "=0.29.0", features = ["fs", "process"] }
signal-hook = { version = "=0.3.18", features = ["extended-siginfo"] }
sysinfo = { version = "=0.31.4", default-features = false, features = ["system"] }
xcb = { version = "=1.7.1", features = ["res"] }
xcb-wm = { version = "=0.4.0", features = ["ewmh", "icccm"] }
