[package]
name = "softraster"
version = "0.1.0"
edition = "2021"
publish = false

[dependencies]
image = { version = "=0.25.10", default-features = false, features = ["png", "tga"] }
minifb = "=0.29.0"
nalgebra = "=0.35.0"
rayon = "=1.12.0"
