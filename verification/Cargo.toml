[package]
name = "fab"
version = "0.4.2"
edition = "2021"
publish = false

[dependencies]
anyhow = "=1.0.104"
clap = { version = "=4.6.7", features = ["string"] }
clap_complete = "=4.6.11"
comfy-table = "=8.0.1"
confy = "=2.0.0"
console = "=0.16.6"
dialoguer = "=0.12.0"
dirs = "=7.0.0"
futures = "=0.3.34"
reqwest = { version = "=0.13.5", default-features = false, features = ["blocking", "form", "json"] }
serde = { version = "=1.0.229", features = ["derive"] }
serde_json = "=1.0.151"
tokio = { version = "=1.53.2", features = ["rt-multi-thread"] }
