[package]
name = "graphql_tools"
version = "0.1.0"
edition = "2021"
publish = false

[dependencies]
graphql-parser = "0.4"
serde = { version = "1", features = ["derive"] }
serde_json = "1"
serde_with = "3"
