[package]
name = "rlink"
version = "0.1.0"
edition = "2021"
publish = false

[dependencies]
crossbeam = "*"
bytes = "*"
serde = { version = "*", features = ["derive"] }
serde_json = "*"
anyhow = "*"
