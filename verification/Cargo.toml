[package]
name = "script_bridge"
version = "0.1.0"
edition = "2021"
publish = false

[dependencies]
hv-alchemy = "=0.1.0"
nalgebra = { version = "0.29", default-features = false, features = ["std"] }
