[package]
name = "millennium_run"
version = "0.10.1"
edition = "2021"
publish = false

[dependencies]
rand = "0.8"
ron = "0.8"
serde = { version = "1", features = ["derive"] }
winit = "0.29"
