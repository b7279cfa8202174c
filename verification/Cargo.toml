[package]
name = "chip8"
version = "0.1.0"
edition = "2021"
publish = false

[dependencies]
xorshift = "0.1"
sdl2 = "0.35"
