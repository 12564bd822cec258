[package]
name = "gpu_usage"
version = "0.1.0"
edition = "2021"
publish = false

[dependencies]
chrono = "*"
clap = { version = "*", features = ["derive"] }
notify-rust = "*"
nvml-wrapper = "*"
sysinfo = "*"
