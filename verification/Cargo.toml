[package]
name = "mconv"
version = "2.0.0"
edition = "2021"
publish = false

[dependencies]
colored = "2"
crossterm = "0.28"
indicatif = "0.17"
libc = "0.2"
rayon = "1"
