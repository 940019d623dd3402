[package]
name = "gulp"
version = "0.1.0"
edition = "2021"
publish = false

[dependencies]
anyhow = "1"
cairo-rs = "0.20"
clap = { version = "4", features = ["derive"] }
clap_complete = "4"
env_logger = "0.11"
image = "0.25"
log = "0.4"
nix = { version = "0.29", features = ["fs", "mman", "uio"] }
serde = { version = "1", features = ["derive"] }
serde_json = "1"
smithay-client-toolkit = "0.19"
tesseract = "*"
wayland-client = "0.31"
wayland-protocols-wlr = { version = "0.3", features = ["client"] }
