[package]
name = "geoping"
version = "0.1.0"
edition = "2021"
publish = false

[dependencies]
url = "2"
clap = { version = "4", features = ["derive"] }
tokio = { version = "1", features = ["full"] }
serde = { version = "1", features = ["derive"] }
serde_json = "1"
toml = "0.8"
reqwest = { version = "0.12", features = ["json", "stream"] }
reqwest-eventsource = "0.6"
surge-ping = "0.8"
axum = "0.8"
async-stream = "0.3"
futures-util = "0.3"
tokio-stream = "0.1"
