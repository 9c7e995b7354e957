[package]
name = "clear_frame"
version = "0.1.0"
edition = "2021"
publish = false

[dependencies]
arrayvec = "=0.4.12"
gfx-hal = "=0.2.1"
gfx-backend-vulkan = "0.2"
winit = "0.19"
