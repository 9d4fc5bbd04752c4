[package]
name = "model_vit"
version = "0.1.0"
edition = "2021"
publish = false

[dependencies]
burn = { version = "=0.21.0", default-features = false }
