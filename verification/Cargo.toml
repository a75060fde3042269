[package]
name = "portia"
version = "0.1.0"
edition = "2021"
publish = false

[dependencies]
cgmath = "0.18"
env_logger = "0.8"
walkdir = "2"
winit = "0.24"
