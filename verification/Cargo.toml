[package]
name = "noise_walk"
version = "0.1.0"
edition = "2021"
publish = false

[dependencies]
rand = "0.8"
wee_alloc = "0.4"
