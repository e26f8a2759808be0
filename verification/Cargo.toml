[package]
name = "gpgpu"
version = "0.1.0"
edition = "2021"
publish = false

[dependencies]
wgpu = "22"
pollster = "0.3"
