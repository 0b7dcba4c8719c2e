[package]
name = "cjvalpy"
version = "0.1.0"
edition = "2021"
publish = false

[dependencies]
cjval = "=0.4.3"
pyo3 = "=0.29.3"
serde_json = "=1.0.151"
