[package]
name = "dot_matrix"
version = "0.1.0"
edition = "2021"
publish = false

[dependencies]
fastrand = "*"
dfr0299 = "*"
