[package]
name = "first_person_camera"
version = "0.1.0"
edition = "2021"
publish = false

[dependencies]
kiss3d = "0.35"
