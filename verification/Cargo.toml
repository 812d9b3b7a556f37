[package]
name = "wavfilter"
version = "0.1.0"
edition = "2021"
publish = false

[dependencies]
anyhow = "1"
clap = { version = "4", features = ["derive"] }
hound = "3.5"
walkdir = "2"

[dev-dependencies]
tempfile = "3"
