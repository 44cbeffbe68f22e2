[package]
name = "sdl_tty"
version = "0.1.0"
edition = "2021"
publish = false

[dependencies]
ringbuf = "=0.2.8"
sdl2 = { version = "=0.38.0", features = ["image", "unsafe_textures"] }
