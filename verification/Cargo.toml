[package]
name = "scratchnative"
version = "0.1.0"
edition = "2021"
publish = false

[dependencies]
serde_json = "1"
serde = { version = "1", features = ["derive"] }
clap = "4"
colored = "2"
simplelog = "0.12"
log = "0.4"
