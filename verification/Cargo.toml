[package]
name = "fabro-sandbox"
version = "0.1.0"
edition = "2021"
publish = false

[dependencies]
anyhow = "1"
async-trait = "0.1"
azure_core = { version = "1", default-features = false }
azure_identity = { version = "1", default-features = false }
chrono = "0.4"
reqwest = { version = "0.12", default-features = false, features = ["json"] }
serde = { version = "1", features = ["derive"] }
serde_json = "1"
thiserror = "2"
tokio = { version = "1", features = ["fs", "macros", "rt", "sync", "time"] }
tokio-util = "0.7"
tracing = "0.1"
url = "2"
uuid = { version = "1", features = ["v4"] }
