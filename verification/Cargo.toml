[package]
name = "vsv"
version = "0.1.0"
edition = "2021"
publish = false

[dependencies]
anyhow = "1"
clap = { version = "3", features = ["derive", "cargo"] }
dirs = "4"
rayon = "1"
yansi = "0.5"
