[package]
name = "paycomp"
version = "0.1.0"
edition = "2021"
publish = false

[dependencies]
serde = { version = "*", features = ["derive"] }
uuid = { version = "*", features = ["v4"] }
