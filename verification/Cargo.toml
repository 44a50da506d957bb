[package]
name = "zarrs_conventions"
version = "0.1.0"
edition = "2021"
publish = false

[dependencies]
iref = { version = "*", features = ["serde"] }
serde = { version = "1", features = ["derive"] }
serde_json = "1"
uuid = { version = "1", features = ["serde"] }
