[package]
name = "soldier_sim"
version = "0.1.0"
edition = "2021"
publish = false

[dependencies]
binpack = "=0.1.0"
glutin = "=0.19.0"
image = "=0.21.3"
