[package]
name = "cellular_textures"
version = "0.1.0"
edition = "2021"
publish = false

[dependencies]
clap = { version = "=4.6.7", features = ["derive"] }
image = "=0.25.10"
kd-tree = "=0.6.2"
rand = "=0.10.3"
rustc_apfloat = "=0.2.3"
typenum = "=1.20.1"
