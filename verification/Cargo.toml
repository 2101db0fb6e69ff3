[package]
name = "clipsync"
version = "0.1.0"
edition = "2021"
publish = false

[dependencies]
anyhow = "=1.0.104"
crossbeam-channel = "=0.5.17"
env_logger = "=0.11.11"
log = "=0.4.34"
wl-clipboard-rs = "=0.9.4"
x11-clipboard = "=0.9.3"
x11rb = { version = "=0.13.2", features = ["xfixes"] }
