[package]
name = "coding_companion"
version = "0.1.0"
edition = "2021"
publish = false

[dependencies]
regex = "1"
serenity = "0.11"
tokio = { version = "1", features = ["macros", "rt-multi-thread"] }
dotenv = "0.15"
serde = { version = "1", features = ["derive"] }
serde_json = "1"
