[package]
name = "select_bot"
version = "0.1.0"
edition = "2021"
publish = false

[dependencies]
serenity = { version = "=0.12.5", features = ["collector"] }
tokio = { version = "1", features = ["macros", "rt-multi-thread"] }
dotenv = "0.15"
log = "0.4"
