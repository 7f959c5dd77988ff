[package]
name = "ziptree"
version = "0.1.0"
edition = "2021"
publish = false

[dependencies]
walkdir = "=2.5.0"
zip = { version = "=2.6.1", default-features = false, features = ["deflate"] }
