[package]
name = "ezpz"
version = "0.1.0"
edition = "2021"
publish = false

[dependencies]
rust_ti = "=2.1.5"
pyo3 = "=0.23.5"
polars = { version = "=0.46.0", default-features = false, features = ["lazy", "fmt"] }
pyo3-polars = { version = "=0.20.0", features = ["lazy"] }
serde = { version = "=1.0.229", features = ["derive"] }
egui = "=0.37.0"
