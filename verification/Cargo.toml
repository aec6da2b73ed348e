[package]
name = "console_mux"
version = "0.1.0"
edition = "2021"
publish = false

[dependencies]
spin = "=0.12.3"
lazy_static = "=1.5.1"
