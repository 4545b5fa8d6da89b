[package]
name = "fmmd"
version = "0.1.0"
edition = "2021"
publish = false

[dependencies]
owo-colors = "*"
id3 = "*"
clap = { version = "*", features = ["derive"] }
