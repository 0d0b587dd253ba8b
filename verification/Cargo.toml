[package]
name = "phakebit"
version = "0.1.0"
edition = "2021"
publish = false

[dependencies]
argh = "*"
console = "*"
