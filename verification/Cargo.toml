[package]
name = "maxtouch"
version = "0.1.0"
edition = "2021"
publish = false

[dependencies]
hidapi = "*"
image = { version = "*", default-features = false, features = ["png"] }
parking_lot = "*"
serde = { version = "*", features = ["derive"] }
serde-big-array = "*"
serde_json = "*"
