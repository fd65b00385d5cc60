[package]
name = "orbit_zoom"
version = "0.1.0"
edition = "2021"
publish = false

[dependencies]
three-d = "*"
three-d-asset = "*"
tokio = { version = "*", features = ["macros", "rt-multi-thread"] }
