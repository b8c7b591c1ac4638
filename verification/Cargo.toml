[package]
name = "weather_dashboard"
version = "0.1.0"
edition = "2021"
publish = false

[dependencies]
crossterm = "0.25"
dotenv = "0.15"
reqwest = { version = "0.11", features = ["json"] }
serde_json = "1"
tokio = { version = "1", features = ["macros", "rt-multi-thread"] }
tui = "0.19"
