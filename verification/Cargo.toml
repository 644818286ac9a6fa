[package]
name = "qwertdvert"
version = "0.1.0"
edition = "2021"
publish = false

[dependencies]
evdev = "*"
nix = { version = "=0.29.0", features = ["fs", "event"] }
signal-hook = "*"
