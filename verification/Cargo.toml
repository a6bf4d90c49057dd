[package]
name = "graphql_resolver"
version = "0.1.0"
edition = "2021"
publish = false

[dependencies]
async-graphql = { version = "*", default-features = false, features = ["dynamic-schema"] }
async-graphql-parser = "*"
async-graphql-value = "*"
futures = "*"
inventory = "*"
rustc-hash = "*"
serde_json = "*"
thiserror = "*"

[dev-dependencies]
bytes = "*"
