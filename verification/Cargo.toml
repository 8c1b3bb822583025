[package]
name = "scan_control"
version = "0.1.0"
edition = "2021"
publish = false

[dependencies]
actix-web = "*"
serde = { version = "*", features = ["derive"] }
tracing = "*"
tracing-subscriber = "*"
