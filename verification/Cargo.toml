[package]
name = "quote_bot"
version = "0.1.0"
edition = "2021"
publish = false

[dependencies]
serde_json = "*"
serenity = "0.12"
reqwest = "*"
tokio = { version = "*", features = ["macros", "rt-multi-thread"] }
dotenv = "*"
