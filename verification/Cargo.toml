[package]
name = "wgsl_embed"
version = "0.1.0"
edition = "2021"
publish = false

[dependencies]
naga = { version = "*", features = ["wgsl-in", "spv-out"] }
