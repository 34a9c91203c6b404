[package]
name = "benchmark"
version = "0.1.0"
edition = "2021"
publish = false

[dependencies]
argh = "*"
glob = "*"
libloading = "*"
rayon = "*"
serde = { version = "*", features = ["derive"] }
serde_json = "*"
