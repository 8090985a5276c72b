[package]
name = "clarity_db"
version = "0.1.0"
edition = "2021"
publish = false

[dependencies]
serde = { version = "=1.0.229", features = ["derive"] }
serde_json = "=1.0.154"
sha2 = "=0.11.1"
c32 = { version = "=0.6.1", features = ["alloc", "check"] }
