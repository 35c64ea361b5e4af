[package]
name = "pogla"
version = "0.1.0"
edition = "2021"
publish = false

[dependencies]
ansi_term = "0.12"
cgmath = "0.18"
clap = { version = "4", features = ["derive"] }
env_logger = "0.10"
gl = "0.14"
log = "0.4"
rand = "0.8"
sdl2 = "0.35"
