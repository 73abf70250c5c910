[package]
name = "mandelbrot"
version = "0.1.0"
edition = "2021"
publish = false

[dependencies]
pixels = "*"
winit = "*"
winit_input_helper = "*"
