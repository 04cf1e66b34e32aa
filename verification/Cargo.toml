[package]
name = "spaces"
version = "0.1.0"
edition = "2021"
publish = false

[dependencies]
rand = "0.5"
serde = { version = "1.0", features = ["derive"] }
ndarray = "0.12"

[dev-dependencies]
serde_test = "1.0"
