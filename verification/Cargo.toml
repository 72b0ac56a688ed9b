[package]
name = "playwright-driver"
version = "0.1.0"
edition = "2021"
publish = false

[dependencies]
dirs = "6"
tokio = { version = "1", features = ["process", "rt", "macros"] }

[dev-dependencies]
tempfile = "3"
