[package]
name = "rschat"
version = "0.1.0"
edition = "2021"
publish = false

[dependencies]
clap = "4"
dirs = "5"
reqwest = { version = "0.11", features = ["blocking", "json"] }
serde = { version = "1", features = ["derive"] }
serde_json = "1"
