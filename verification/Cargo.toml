[package]
name = "diffusers_core"
version = "0.1.0"
edition = "2021"
publish = false

[dependencies]
anyhow = "=1.0.104"
image = "=0.24.9"
ndarray = "=0.15.6"
ndarray_einsum_beta = "=0.7.0"
ndarray-rand = "=0.14.0"
num-traits = "=0.2.19"
ort = { version = "=2.0.0-rc.13", default-features = false, features = ["std", "ndarray", "alternative-backend"] }
rand = "=0.8.8"
serde_json = "=1.0.151"
