[package]
name = "palvox"
version = "0.1.0"
edition = "2021"
publish = false

[dependencies]
image = "*"
log = "*"
env_logger = "*"
glfw = "*"
luminance = "*"
luminance-glfw = "*"
