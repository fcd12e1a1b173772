[package]
name = "federation-reviews"
version = "0.1.0"
edition = "2021"
publish = false

[dependencies]
async-graphql = "=1.18.2"
async-graphql-warp = "=1.18.1"
serde = "=1.0.118"
tokio = { version = "=0.2.25", features = ["macros", "rt-threaded"] }
warp = "=0.2.5"
