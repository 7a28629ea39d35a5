[package]
name = "lognarrator_client"
version = "0.1.0"
edition = "2021"
publish = false

[dependencies]
anyhow = "1"
async-trait = "0.1"
base64 = "0.13"
chrono = { version = "0.4", features = ["serde"] }
clap = { version = "4", features = ["derive"] }
config = { version = "0.13", default-features = false, features = ["yaml"] }
futures = "0.3"
hex = "0.4"
hyper = { version = "0.14", features = ["full"] }
regex = "1"
reqwest = { version = "0.11", features = ["json"] }
rusqlite = "0.29"
serde = { version = "1", features = ["derive"] }
serde_json = "1"
serde_yaml = "0.9"
sodiumoxide = "0.2"
tokio = { version = "1", features = ["full"] }
tower-http = { version = "0.4", features = ["cors"] }
tracing = "0.1"
tracing-subscriber = { version = "0.3", features = ["env-filter"] }
