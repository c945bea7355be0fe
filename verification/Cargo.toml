[package]
name = "doc_analysis"
version = "0.1.0"
edition = "2021"
publish = false

[dependencies]
serde_json = "*"
dotenv = "*"
reqwest = { version = "*", default-features = false, features = ["blocking"] }
