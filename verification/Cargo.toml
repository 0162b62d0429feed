[package]
name = "epicycles"
version = "0.1.0"
edition = "2021"
publish = false

[dependencies]
svg = "*"
sdl2 = "*"
