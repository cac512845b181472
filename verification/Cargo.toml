[package]
name = "sfcc"
version = "0.1.0"
edition = "2021"
publish = false

[dependencies]
uom = { version = "*", default-features = false, features = ["f64", "si", "std"] }
