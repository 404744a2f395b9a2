[package]
name = "hpke_spec"
version = "0.1.0"
edition = "2021"
publish = false

[dependencies]
hpke = "0.12"
pyo3 = { version = "0.20", features = ["extension-module"] }
rand = "0.8"
