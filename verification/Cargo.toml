[package]
name = "batteryinfo"
version = "0.1.0"
edition = "2021"
publish = false

[dependencies]
human-time = "*"
battery = "*"
pyo3 = "*"
