[package]
name = "renderer"
version = "0.1.0"
edition = "2021"
publish = false

[dependencies]
vello = "0.2"
vello_svg = "0.3"
wgpu = "0.20"
image = "0.25"
