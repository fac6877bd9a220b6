[package]
name = "message_index"
version = "0.1.0"
edition = "2021"
publish = false

[dependencies]
tantivy = "0.19"
serenity = "0.11"
tokio = { version = "1", features = ["macros", "rt-multi-thread"] }
dotenv = "0.15"
