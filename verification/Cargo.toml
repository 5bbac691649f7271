[package]
name = "rolebot"
version = "0.1.0"
edition = "2021"
publish = false

[dependencies]
serenity = "0.11"
reqwest = { version = "0.11", default-features = false, features = ["json", "rustls-tls"] }
serde = { version = "1", features = ["derive"] }
serde_json = "1"
tokio = { version = "1", features = ["macros", "rt-multi-thread", "signal"] }
anyhow = "1"
