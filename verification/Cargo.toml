[package]
name = "deckgym"
version = "0.1.0"
edition = "2021"
publish = false

[dependencies]
rand = "0.8"
pyo3 = "0.22"
numpy = "0.22"
