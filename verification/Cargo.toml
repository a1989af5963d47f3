[package]
name = "workspaces"
version = "0.1.0"
edition = "2021"
publish = false

[dependencies]
anyhow = "1"
base64 = "0.13"
chrono = "0.4"
dirs = "4"
rand = "0.8"
reqwest = { version = "0.11", default-features = false, features = ["json"] }
serde_json = "1"
tokio = { version = "1", features = ["rt", "rt-multi-thread", "time", "macros"] }
url = "2"
