[package]
name = "metadata_resolve"
version = "0.1.0"
edition = "2021"
publish = false

[dependencies]
reqwest = { version = "=0.11.27", default-features = false, features = ["json"] }
serde_json = "1"
