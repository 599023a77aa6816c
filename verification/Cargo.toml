[package]
name = "zombiesplit"
version = "0.1.0"
edition = "2021"
publish = false

[dependencies]
anyhow = "*"
bimap = "*"
chrono = "*"
clap = "*"
env_logger = "*"
sdl2 = "*"
