[package]
name = "camview"
version = "0.1.0"
edition = "2021"
publish = false

[dependencies]
jpeg-decoder = { version = "=0.3.2", features = ["platform_independent"] }
softbuffer = "=0.2.1"
winit = "=0.28.7"
v4l = "=0.14.0"
