[package]
name = "sim2d"
version = "0.1.0"
edition = "2021"
publish = false

[dependencies]
anyhow = "1"
ash = "0.38"
image = { version = "0.25", default-features = false }
indoc = "2"
log = "0.4"
nalgebra = "0.33"
num-traits = "0.2"
