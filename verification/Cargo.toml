[package]
name = "guikit"
version = "0.1.0"
edition = "2021"
publish = false

[dependencies]
tiny-skia = "*"
uuid = { version = "*", features = ["v4"] }
chrono = "*"
fontdue = "*"
image = "*"
winit = "*"
softbuffer = "*"
