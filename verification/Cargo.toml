[package]
name = "overlay_menu"
version = "0.1.0"
edition = "2021"
publish = false

[dependencies]
wchar = "0.11"
