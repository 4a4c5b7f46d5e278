[package]
name = "ironkey"
version = "0.1.0"
edition = "2021"
publish = false

[dependencies]
anyhow = "=1.0.104"
chrono = "=0.4.45"
env_logger = "=0.11.11"
iced = { version = "=0.14.0", default-features = false, features = ["tiny-skia", "tokio", "x11", "crisp", "web-colors"] }
log = "=0.4.35"
nix = { version = "=0.29.0", features = ["mount"] }
portable-pty = "=0.8.1"
sysinfo = "=0.40.1"
vte = "=0.15.0"
walkdir = "=2.5.0"
