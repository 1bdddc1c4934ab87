[package]
name = "retained_ui"
version = "0.1.0"
edition = "2021"
publish = false

[dependencies]
iced_core = "0.5"
iced_native = "0.5"
iced_style = "0.4"
wgpu = "0.12"
