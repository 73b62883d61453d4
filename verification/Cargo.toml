[package]
name = "eplstudents"
version = "0.1.0"
edition = "2021"
publish = false

[dependencies]
css-minify = "*"
maud = "*"
rocket = "*"
