[package]
name = "diary"
version = "0.1.0"
edition = "2021"
publish = false

[dependencies]
chrono = "=0.4.45"
dialoguer = "=0.12.0"
dotenv = "=0.15.0"
reqwest = { version = "=0.13.5", default-features = false, features = ["json", "query"] }
serde = { version = "=1.0.229", features = ["derive"] }
termimad = "=0.35.5"
tokio = { version = "=1.53.2", features = ["macros", "rt-multi-thread"] }
