[package]
name = "rodio_experiments"
version = "0.1.0"
edition = "2021"
publish = false

[dependencies]
rodio = { version = "=0.23.0", default-features = false, features = ["experimental"] }
itertools = "=0.15.0"
thiserror = "=2.0.21"
roots = "=0.0.8"
