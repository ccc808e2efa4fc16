[package]
name = "query_client"
version = "0.1.0"
edition = "2021"
publish = false

[dependencies]
getrandom = { version = "0.2", features = ["custom"] }
serde_json = "1"
