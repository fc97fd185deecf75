[package]
name = "mail_triage"
version = "0.1.0"
edition = "2021"
publish = false

[dependencies]
base64 = "=0.23.1"
serde = { version = "*", features = ["derive"] }
serde_json = "*"
reqwest = { version = "=0.13.5", default-features = false, features = ["blocking", "json", "query", "form"] }
worker = "*"
