[package]
name = "three_body_viewer"
version = "0.1.0"
edition = "2021"
publish = false

[dependencies]
macroquad = "0.4"
nalgebra = "0.33"
