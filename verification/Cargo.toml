[package]
name = "container_rack_lib"
version = "0.1.0"
edition = "2021"

[dependencies]
clap = { version = "4", features = ["derive"] }
svg = "*"
url = "2"
