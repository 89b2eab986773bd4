[package]
name = "fbw"
version = "0.1.0"
edition = "2021"
publish = false

[dependencies]
msfs = "*"
serde = { version = "1", features = ["derive"] }
