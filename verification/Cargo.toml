[package]
name = "weather_line"
version = "0.1.0"
edition = "2021"
publish = false

[dependencies]
chrono = "0.4"
serde = { version = "1", features = ["derive"] }
ureq = { version = "3", features = ["json"] }
