[package]
name = "svgwatch"
version = "0.1.0"
edition = "2021"
publish = false

[dependencies]
derive_more = { version = "*", features = ["from"] }
log = "0.4"
notify = "*"
rayon = "1"
