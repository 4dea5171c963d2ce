[package]
name = "verified_bot_commit"
version = "0.1.0"
edition = "2021"
publish = false

[dependencies]
base64 = "0.22"
glob-match = "0.2"
serde_json = "1"
serde = { version = "1", features = ["derive"] }
reqwest = { version = "0.12", default-features = false, features = ["json", "rustls-tls"] }
tokio = { version = "1", features = ["macros", "rt-multi-thread", "time"] }
