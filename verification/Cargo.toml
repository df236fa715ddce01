[package]
name = "broth"
version = "0.1.0"
edition = "2021"
publish = false

[dependencies]
png = "0.17"
cgmath = "0.18"
log = "0.4"
env_logger = "0.10"
thiserror = "1"
tobj = "3"
vulkanalia = { version = "0.23", features = ["libloading", "window"] }
winit = "0.29"
