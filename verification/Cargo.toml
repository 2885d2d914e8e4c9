[package]
name = "screen_splitter"
version = "0.1.0"
edition = "2021"
publish = false

[dependencies]
clap = "2"
glium = "0.27"
x11cap = "*"
