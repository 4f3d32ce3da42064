[package]
name = "onboarding"
version = "0.1.0"
edition = "2021"
publish = false

[dependencies]
nanoid = "0.4"
iso8601-timestamp = "0.2"
regex = "1"
serde = { version = "1", features = ["derive"] }
serde_json = "1"
ulid = "1"
validator = { version = "0.16", features = ["derive"] }
