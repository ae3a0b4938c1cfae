[package]
name = "brown_noise"
version = "0.1.0"
edition = "2021"
publish = false

[dependencies]
clap = { version = "*", features = ["derive"] }
hound = "*"
rand = "*"
rand_distr = "*"
