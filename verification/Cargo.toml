[package]
name = "pong_ball"
version = "0.1.0"
edition = "2021"
publish = false

[dependencies]
gdnative = "0.9"
rand = "0.8"
