[package]
name = "chip8"
version = "0.1.0"
edition = "2021"
publish = false

[dependencies]
rand = "0.8"
log = "0.4"
clap = { version = "3", features = ["derive"] }
indicatif = "0.17"
minifb = "*"
raqote = { version = "0.8", default-features = false }
