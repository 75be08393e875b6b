[package]
name = "mathroborust"
version = "0.1.0"
edition = "2021"
publish = false

[dependencies]
nalgebra = "=0.35.0"
pyo3 = "=0.30.1"
