[package]
name = "iodine"
version = "0.1.0"
edition = "2021"
publish = false

[dependencies]
petgraph = "*"
uuid = { version = "1", features = ["v4", "v5", "serde"] }
serde = { version = "1", features = ["derive"] }
serde_json = "1"
serde_yaml = "0.9"
chrono = { version = "0.4", features = ["serde"] }
tokio = { version = "1", features = ["full"] }
thiserror = "*"
async-trait = "0.1"
futures = "0.3"
hostname = "*"
clap = "4"
tracing = "0.1"
tracing-subscriber = "0.3"
prost-types = "*"
async-graphql = "*"
async-graphql-axum = "*"
axum = "*"
tower-http = { version = "*", features = ["cors"] }
