[package]
name = "coreaudio"
version = "0.2.1"
edition = "2021"
publish = false

[dependencies]
coreaudio-sys = "*"
core-foundation = "*"
num-traits = "*"
