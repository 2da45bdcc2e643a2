[package]
name = "opent5"
version = "0.1.0"
edition = "2021"
publish = false

[dependencies]
arrayvec = "0.7"
raw-window-handle = "0.5"
lazy_static = "1"
