[package]
name = "kalman_fusion"
version = "0.1.0"
edition = "2021"
publish = false

[dependencies]
fixed = "1"
num-traits = "0.2"
