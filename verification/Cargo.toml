[package]
name = "genre_gateway"
version = "0.1.0"
edition = "2021"
publish = false

[dependencies]
async-graphql = "2.11"
async-graphql-tide = "2.11"
async-std = { version = "=1.13.2", features = ["attributes"] }
config = "0.11"
serde = { version = "=1.0.229", features = ["derive"] }
surf = "=2.3.2"
tide = "=0.16.0"

[dev-dependencies]
serde_json = "=1.0.154"
