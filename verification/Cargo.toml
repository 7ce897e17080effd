[package]
name = "order_lifecycle"
version = "0.1.0"
edition = "2021"
publish = false

[dependencies]
indexmap = "*"
rust_decimal = "*"
serde = { version = "*", features = ["derive"] }
pyo3 = "*"
