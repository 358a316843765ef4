[package]
name = "space_radio"
version = "0.1.0"
edition = "2021"
publish = false

[dependencies]
dashmap = "*"
nannou_osc = "*"
