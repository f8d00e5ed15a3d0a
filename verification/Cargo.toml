[package]
name = "anise"
version = "0.1.0"
edition = "2021"
publish = false

[dependencies]
der = { version = "0.6", features = ["alloc"] }
hifitime = "3"
