[package]
name = "guitar_tools"
version = "0.1.0"
edition = "2021"
publish = false

[dependencies]
cpal = "=0.15.3"
realfft = "=3.3.0"
rodio = { version = "=0.17.3", default-features = false }
