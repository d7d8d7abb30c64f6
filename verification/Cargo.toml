[package]
name = "shared_domain"
version = "0.1.0"
edition = "2021"
publish = false

[dependencies]
uuid = { version = "1", features = ["v4"] }
fastrand = "2"
serde = { version = "1", features = ["derive"] }
serde_json = "1"
