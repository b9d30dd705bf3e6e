[package]
name = "monke"
version = "0.1.0"
edition = "2021"
publish = false

[dependencies]
fastrand = "=2.5.0"
eframe = { version = "=0.22.0", default-features = false, features = ["glow"] }
human_format = "=1.2.1"
lazy_static = "=1.5.1"
num_cpus = "=1.17.0"
