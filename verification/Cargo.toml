[package]
name = "cubeb_coreaudio_samples"
version = "0.1.0"
edition = "2021"
publish = false

[dependencies]
clap = { version = "*", features = ["derive"] }
coreaudio-sys = "*"
cubeb-backend = "*"
