[package]
name = "github_stats"
version = "0.1.0"
edition = "2021"
publish = false

[dependencies]
reqwest = { version = "=0.13.5", features = ["blocking"] }
serde_json = "=1.0.154"
