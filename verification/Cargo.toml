[package]
name = "kornia_apriltag"
version = "0.1.0"
edition = "2021"
publish = false

[dependencies]
kornia-image = "0.1.10"
kornia-imgproc = "0.1.10"
