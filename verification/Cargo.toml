[package]
name = "svc"
version = "0.1.0"
edition = "2021"
publish = false

[dependencies]
colored = "*"
rayon = "*"
serde = { version = "*", features = ["derive"] }
serde_yaml = "*"
thiserror = "*"
