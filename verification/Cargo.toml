[package]
name = "gif_recolor"
version = "0.1.0"
edition = "2021"
publish = false

[dependencies]
gif = "0.13"
