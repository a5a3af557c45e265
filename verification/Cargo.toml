[package]
name = "evening_guide"
version = "0.1.0"
edition = "2021"
publish = false

[dependencies]
chrono = "=0.4.45"
quick-xml = { version = "0.23", features = ["serialize"] }
reqwest = { version = "=0.11.27", features = ["blocking"] }
serde = { version = "=1.0.229", features = ["derive"] }
