[package]
name = "raytracer"
version = "0.1.0"
edition = "2021"
publish = false

[dependencies]
bumpalo = "3"
cgmath = "0.18"
image = { version = "0.23", default-features = false, features = ["hdr"] }
nalgebra = "*"
num = "0.4"
rayon = "1"
