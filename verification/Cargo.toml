[package]
name = "skysync"
version = "0.1.0"
edition = "2021"
publish = false

[dependencies]
chrono = "0.4"
rand = "0.8"
dirs = "*"
dotenv = "0.15"
reqwest = { version = "*", features = ["json"] }
serde = { version = "1", features = ["derive"] }
serde_json = "1"
serenity = { version = "0.12", default-features = false, features = ["builder", "http", "model", "rustls_backend"] }
tokio = { version = "1", features = ["full"] }
