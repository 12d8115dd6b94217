[package]
name = "progressors"
version = "0.1.0"
edition = "2021"
publish = false

[dependencies]
crossterm = { version = "=0.26.1", default-features = false }
