[package]
name = "vinylify"
version = "0.1.0"
edition = "2021"
publish = false

[dependencies]
anyhow = "1"
clap = { version = "4", features = ["derive"] }
console = "0.15"
dialoguer = "0.11"
dotenv = "0.15"
reqwest = { version = "0.12", default-features = false, features = ["json"] }
rspotify = { version = "0.13", default-features = false, features = ["client-reqwest"] }
serde = { version = "1", features = ["derive"] }
serde_json = "1"
tokio = { version = "1", features = ["macros", "rt-multi-thread"] }
