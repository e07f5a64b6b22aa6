[package]
name = "nb"
version = "1.1.0"
edition = "2021"
publish = false

[dependencies]
defmt = "0.3"
