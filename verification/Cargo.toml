[package]
name = "roux"
version = "1.0.0"
edition = "2021"
publish = false

[dependencies]
reqwest = { version = "0.11", default-features = false, features = ["blocking"] }
serde_json = "1"
