[package]
name = "battcheck"
version = "0.1.0"
edition = "2021"
publish = false

[dependencies]
battery = "*"
clap = { version = "*", features = ["derive"] }
