[package]
name = "flight"
version = "0.1.0"
edition = "2021"
publish = false

[dependencies]
nalgebra = "=0.32.6"
gfx = "=0.18.3"
rust-webvr = { version = "=0.19.0", default-features = false, features = ["mock"] }
rust-webvr-api = "=0.17.0"
