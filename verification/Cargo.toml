[package]
name = "writing_feedback"
version = "0.1.0"
edition = "2021"
publish = false

[dependencies]
serde_json = "1"
serde = { version = "1", features = ["derive"] }
reqwest = { version = "0.12", default-features = false, features = ["json", "rustls-tls"] }
tokio = { version = "1", features = ["full"] }
dotenv = "0.15"
indicatif = "0.17"
rusqlite = { version = "0.32", features = ["bundled"] }
directories = "5"
