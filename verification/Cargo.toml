[package]
name = "shinigami"
version = "0.1.0"
edition = "2021"
publish = false

[dependencies]
serenity = "=0.12.5"
serde = "1"
serde_derive = "1"
tokio = { version = "1", features = ["macros", "rt-multi-thread"] }
toml = "*"
