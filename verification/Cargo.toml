[package]
name = "chippy8"
version = "0.1.0"
edition = "2021"
publish = false

[dependencies]
rand = "0.8"
glium = "0.25"
glutin = "0.21"
