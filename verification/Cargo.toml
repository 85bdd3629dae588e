[package]
name = "keyboard_debugger"
version = "0.1.0"
edition = "2021"
publish = false

[dependencies]
egui = "=0.27.2"
env_logger = "=0.11.11"
winit = "=0.28.7"
