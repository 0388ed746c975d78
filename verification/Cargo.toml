[package]
name = "chip8"
version = "0.1.0"
edition = "2021"
publish = false

[dependencies]
rand = "0.8"
log = "0.4"
env_logger = "0.10"
bracket-lib = { version = "0.8", default-features = false, features = ["crossterm"] }
