[package]
name = "design_patterns"
version = "0.1.0"
edition = "2021"
publish = false

[dependencies]
anyhow = "1"
once_cell = "1"
rand = "0.8"
