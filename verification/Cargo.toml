[package]
name = "tri_render"
version = "0.1.0"
edition = "2021"
publish = false

[dependencies]
glow = "0.13"
glutin = "0.31"
glutin-winit = "0.4"
raw-window-handle = "0.5"
winit = "0.29"
