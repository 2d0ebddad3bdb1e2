[package]
name = "plantstation"
version = "0.1.0"
edition = "2021"
publish = false

[dependencies]
bincode = "1.3"
bit-vec = "*"
clap = { version = "4", features = ["derive"] }
i2c-linux = "*"
json = "*"
log = "*"
