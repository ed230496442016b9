[package]
name = "wizlight"
version = "0.1.0"
edition = "2021"
publish = false

[dependencies]
serde_json = "1"
palette = "0.5"
clap = { version = "4", features = ["derive"] }
