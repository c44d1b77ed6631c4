[package]
name = "ripper"
version = "0.1.0"
edition = "2021"
publish = false

[dependencies]
anyhow = "=1.0.104"
clap = { version = "=4.6.7", features = ["derive"] }
colored = "=2.2.0"
regex = "=1.13.1"
walkdir = "=2.5.0"

[dev-dependencies]
rustix = { version = "=1.1.6", features = ["fs"] }
tempfile = "=3.27.0"
