[package]
name = "netbridge"
version = "0.1.0"
edition = "2021"
publish = false

[dependencies]
crossbeam = "0.8"
laminar = { version = "0.5", default-features = false }
