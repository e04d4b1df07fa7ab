[package]
name = "toolbridge"
version = "0.1.0"
edition = "2021"
publish = false

[dependencies]
num-complex = "=0.4.6"
pyo3 = "=0.29.3"
toolapi = "=0.3.2"
