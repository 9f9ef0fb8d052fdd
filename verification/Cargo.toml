[package]
name = "mdlinks"
version = "0.1.0"
edition = "2021"
publish = false

[dependencies]
markdown = "=1.0.0"
tl = "=0.7.8"
