[package]
name = "monty_python"
version = "0.0.1"
edition = "2021"
publish = false

[dependencies]
postcard = { version = "=1.1.3", features = ["alloc"] }
pyo3 = { version = "=0.28.3", features = ["abi3-py310", "extension-module"] }
send_wrapper = "=0.6.0"
serde = { version = "=1.0.229", features = ["derive"] }
