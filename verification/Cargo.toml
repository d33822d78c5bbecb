[package]
name = "ocw_demo"
version = "0.1.0"
edition = "2021"
publish = false

[dependencies]
sp-core = "*"
parity-scale-codec = "*"
serde = { version = "*", features = ["derive"] }
serde_json = "*"
