[package]
name = "xenvox"
version = "0.1.0"
edition = "2021"
publish = false

[dependencies]
cgmath = "=0.18.0"
gfx = "=0.18.3"
gfx_device_gl = "=0.16.2"
gfx_window_glutin = "=0.31.0"
glutin = "=0.21.2"
rosc = "=0.11.4"
