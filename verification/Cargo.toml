[package]
name = "resemble"
version = "0.1.0"
edition = "2021"
publish = false

[dependencies]
anyhow = "1"
syn = { version = "2", features = ["full", "visit"] }
