[package]
name = "wps_adapter"
version = "0.1.0"
edition = "2021"
publish = false

[dependencies]
prost = "*"
serde = { version = "*", features = ["derive"] }
serde_json = "*"
