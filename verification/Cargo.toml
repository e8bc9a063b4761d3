[package]
name = "pyobject_util"
version = "0.1.0"
edition = "2021"
publish = false

[dependencies]
pyo3-ffi = "*"
serde = "*"
