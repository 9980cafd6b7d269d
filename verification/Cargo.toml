[package]
name = "macondo"
version = "0.1.0"
edition = "2021"
publish = false

[dependencies]
clap = "*"
colored = "*"
indicatif = "*"
reqwest = { version = "*", default-features = false, features = ["blocking", "rustls-tls"] }
serde = { version = "*", features = ["derive"] }
serde_yaml = "*"
tempfile = "*"
users = "*"
walkdir = "*"
