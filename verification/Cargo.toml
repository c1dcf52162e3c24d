[package]
name = "obei_ob_near_core"
version = "0.1.0"
edition = "2021"
publish = false

[dependencies]
chrono = { version = "0.4", default-features = false, features = ["clock", "std"] }
num = "0.4"
near-sdk = "3.1.0"
serde = { version = "1", features = ["derive"] }
