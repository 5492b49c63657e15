[package]
name = "open_dart"
version = "0.1.0"
edition = "2021"
publish = false

[dependencies]
bytes = "1"
chrono = "0.4"
quick-xml = "0.37"
reqwest = { version = "0.12", default-features = false }
serde = { version = "1", features = ["derive"] }
serde_json = "1"
thiserror = "1"
validator = { version = "0.18", default-features = false }
zip = { version = "2", default-features = false, features = ["deflate"] }
