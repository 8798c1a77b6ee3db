[package]
name = "simple2d"
version = "0.1.0"
edition = "2021"
publish = false

[dependencies]
rustc_apfloat = "*"
axgeom = "*"
glutin = "0.29"
gl = "0.14"
