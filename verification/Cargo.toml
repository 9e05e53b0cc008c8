[package]
name = "gfx_layers"
version = "0.1.0"
edition = "2021"
publish = false

[dependencies]
image = { version = "0.24", default-features = false, features = ["png", "jpeg"] }
imageproc = "0.23"
rusttype = "0.9"
