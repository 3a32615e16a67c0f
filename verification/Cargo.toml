[package]
name = "solar_flythrough"
version = "0.1.0"
edition = "2021"
publish = false

[dependencies]
image = { version = "0.25", default-features = false, features = ["png"] }
noise = "0.9"
once_cell = "1"
rayon = "1"
