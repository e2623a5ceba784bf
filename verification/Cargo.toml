[package]
name = "rog_lighting"
version = "0.1.0"
edition = "2021"
publish = false

[dependencies]
serde = { version = "1", features = ["derive"] }
log = "0.4"
udev = "*"
nvml-wrapper = "*"
thiserror = "*"
